//! Default headers put into a header map of the `http` crate.
//!
//! The map itself is the outside crate's; what is known of it here is what
//! the contracts of the three wrappers below state, and nothing else.

use vstd::prelude::*;
use http::header::{HeaderMap, HeaderName, HeaderValue};
use crate::header_laws::lemma_position_same_name;
use crate::headers::{
    fields_of, has_field, lemma_position, lowered, position, same_name, with_defaults, Fields,
    Header,
};

verus! {

/// `http::HeaderMap`, the header multimap of the `http` crate. Nothing of
/// its inside is known here.
#[verifier::external_type_specification]
#[verifier::external_body]
#[verifier::reject_recursive_types(T)]
pub struct ExHeaderMap<T>(HeaderMap<T>);

/// `http::HeaderValue`, the header value of the `http` crate. Nothing of its
/// inside is known here.
#[verifier::external_type_specification]
#[verifier::external_body]
pub struct ExHeaderValue(HeaderValue);

/// What a header map holds, as `HeaderMap::iter` walks it: each name, spelled
/// in lower case as the map keeps it, with each of its values. The names
/// stand in the order in which the map took them, the values of one name
/// together and in the order in which they came.
pub uninterp spec fn header_fields(map: HeaderMap<HeaderValue>) -> Seq<(Seq<u8>, Seq<u8>)>;

/// The least number of fields that a map holds when it refuses an insertion
/// for want of room.
pub const FULL_AT_LEAST: usize = 6554;

/// Whether a byte may stand in a header name: a letter, a digit, or one of
/// ``!#$%&'*+-.^_`|~``.
pub open spec fn is_name_byte(b: u8) -> bool {
    ||| 0x30 <= b <= 0x39
    ||| 0x41 <= b <= 0x5a
    ||| 0x5e <= b <= 0x7a
    ||| b == 0x21
    ||| 0x23 <= b <= 0x27
    ||| b == 0x2a
    ||| b == 0x2b
    ||| b == 0x2d
    ||| b == 0x2e
    ||| b == 0x7c
    ||| b == 0x7e
}

/// Whether a byte string is a header name: between 1 and 65535 name bytes.
pub open spec fn valid_header_name(name: Seq<u8>) -> bool {
    &&& 1 <= name.len() <= 65535
    &&& forall|i: int| 0 <= i < name.len() ==> is_name_byte(#[trigger] name[i])
}

/// Whether a byte may stand in a header value: a tab, or anything from the
/// space on but DEL.
pub open spec fn is_value_byte(b: u8) -> bool {
    b == 0x09 || (b >= 0x20 && b != 0x7f)
}

/// Whether a byte string is a header value.
pub open spec fn valid_header_value(value: Seq<u8>) -> bool {
    forall|i: int| 0 <= i < value.len() ==> is_value_byte(#[trigger] value[i])
}

/// Whether a text is a header name: between 1 and 65535 characters, each of
/// them ASCII and a name byte.
pub open spec fn is_name_text(text: Seq<char>) -> bool {
    &&& 1 <= text.len() <= 65535
    &&& forall|i: int|
        0 <= i < text.len() ==> '\0' <= (#[trigger] text[i]) <= '\u{7f}' && is_name_byte(
            text[i] as u8,
        )
}

/// Whether a text is a header name without capital letters.
pub open spec fn is_lower_name_text(text: Seq<char>) -> bool {
    &&& is_name_text(text)
    &&& forall|i: int| 0 <= i < text.len() ==> !('A' <= (#[trigger] text[i]) <= 'Z')
}

/// Whether a text is a header value: printable ASCII, spaces and tabs.
pub open spec fn is_value_text(text: Seq<char>) -> bool {
    forall|i: int|
        0 <= i < text.len() ==> '\0' <= (#[trigger] text[i]) <= '\u{7f}' && is_value_byte(
            text[i] as u8,
        )
}

/// The bytes of a header name without capital letters are a header name
/// that a map keeps as it is written.
pub proof fn lemma_lower_name_text(text: Seq<char>)
    requires
        is_lower_name_text(text),
    ensures
        valid_header_name(vstd::utf8::encode_utf8(text)),
        lowered(vstd::utf8::encode_utf8(text)) == vstd::utf8::encode_utf8(text),
        vstd::utf8::encode_utf8(text).len() == text.len(),
        forall|i: int|
            0 <= i < text.len() ==> (#[trigger] vstd::utf8::encode_utf8(text)[i]) == text[i] as u8,
{
    assert(vstd::utf8::is_ascii_chars(text));
    vstd::utf8::is_ascii_chars_encode_utf8(text);
    assert(lowered(vstd::utf8::encode_utf8(text)) =~= vstd::utf8::encode_utf8(text));
}

/// The bytes of a text that is a header value are a header value.
pub proof fn lemma_value_text(text: Seq<char>)
    requires
        is_value_text(text),
    ensures
        valid_header_value(vstd::utf8::encode_utf8(text)),
{
    assert(vstd::utf8::is_ascii_chars(text));
    vstd::utf8::is_ascii_chars_encode_utf8(text);
}

/// Whether each of `fields` has a name and a value that a header map takes.
pub open spec fn all_valid(fields: Fields) -> bool {
    forall|i: int|
        0 <= i < fields.len() ==> valid_header_name((#[trigger] fields[i]).0)
            && valid_header_value(fields[i].1)
}

/// `fields` without the fields of the given name.
pub open spec fn without_name(fields: Fields, name: Seq<u8>) -> Fields {
    fields.filter(|f: (Seq<u8>, Seq<u8>)| !same_name(f.0, name))
}

/// What a map holds after `field` was inserted: where it had the name, the
/// field stands in the place of the first field of that name and the further
/// fields of that name are gone; where it had not, the field stands last.
pub open spec fn inserted(fields: Fields, field: (Seq<u8>, Seq<u8>)) -> Fields {
    let p = position(fields, field.0);
    if p < fields.len() {
        fields.take(p).push(field) + without_name(fields.skip(p + 1), field.0)
    } else {
        fields.push(field)
    }
}

/// How an insertion ended.
#[derive(Clone, Copy, Debug, PartialEq, Eq, Structural)]
pub enum InsertOutcome {
    /// The header is in the map.
    Done,
    /// The name is no header name.
    InvalidName,
    /// The value is no header value.
    InvalidValue,
    /// The map took no more entries.
    Full,
}

/// `HeaderMap::new` of the `http` crate.
///
/// Claimed of it: the new map holds nothing.
#[verifier::external_body]
pub(crate) fn empty_map() -> (map: HeaderMap<HeaderValue>)
    ensures
        header_fields(map) == Seq::<(Seq<u8>, Seq<u8>)>::empty(),
{
    HeaderMap::new()
}

/// `HeaderMap::contains_key` of the `http` crate, on the name that
/// `HeaderName::from_bytes` makes of the bytes.
///
/// Claimed of them: the answer is yes exactly when the map holds a field
/// whose name is the given one, letters compared without regard to case. A
/// name that is no header name is in no map.
#[verifier::external_body]
pub(crate) fn has_name(map: &HeaderMap<HeaderValue>, name: &[u8]) -> (yes: bool)
    ensures
        yes == has_field(header_fields(*map), name@),
{
    match HeaderName::from_bytes(name) {
        Ok(name) => map.contains_key(name),
        Err(_) => false,
    }
}

/// `HeaderName::from_bytes`, `HeaderValue::from_bytes` and
/// `HeaderMap::try_insert` of the `http` crate, one after the other.
///
/// Claimed of them: a name is refused exactly when it is empty, longer than
/// 65535 bytes or holds a byte that is no name byte; a value exactly when it
/// holds a control byte other than the tab. An insertion that is made puts
/// the value under the name in lower case: in the place of the first field
/// of that name, the further fields of that name removed, or last where the
/// map had no such name; it touches no other name. One that is not made
/// leaves the map as it was. The map refuses for want of room only when it
/// holds 6554 fields or more: its index then has 32768 places, and a fifth
/// of them at least are taken.
#[verifier::external_body]
pub(crate) fn try_insert(
    map: &mut HeaderMap<HeaderValue>,
    name: &[u8],
    value: &[u8],
) -> (outcome: InsertOutcome)
    ensures
        (outcome is InvalidName) == !valid_header_name(name@),
        (outcome is InvalidValue) == (valid_header_name(name@) && !valid_header_value(value@)),
        header_fields(*final(map)) == if outcome is Done {
            inserted(header_fields(*old(map)), (lowered(name@), value@))
        } else {
            header_fields(*old(map))
        },
        outcome is Full ==> header_fields(*old(map)).len() >= FULL_AT_LEAST,
{
    let Ok(name) = HeaderName::from_bytes(name) else {
        return InsertOutcome::InvalidName;
    };
    let Ok(value) = HeaderValue::from_bytes(value) else {
        return InsertOutcome::InvalidValue;
    };
    match map.try_insert(name, value) {
        Ok(_) => InsertOutcome::Done,
        Err(_) => InsertOutcome::Full,
    }
}

/// The fields as a map would keep them: each name in lower case.
pub open spec fn normalized(fields: Fields) -> Fields {
    Seq::new(fields.len(), |i: int| (lowered(fields[i].0), fields[i].1))
}

/// A name in lower case is the same name, and lowering it again changes
/// nothing.
pub proof fn lemma_lowered(name: Seq<u8>)
    ensures
        lowered(lowered(name)) == lowered(name),
        same_name(lowered(name), name),
{
    assert(lowered(lowered(name)) =~= lowered(name));
}

/// An insertion that was not made.
#[derive(Clone, Copy, Debug, PartialEq, Eq, Structural)]
pub struct InsertError {
    /// Which of the headers was not inserted.
    pub index: usize,
    /// Why: never `Done`.
    pub outcome: InsertOutcome,
}

/// What holds when the insertion of `fields` stopped with `error`: the
/// fields before the one that was refused are in the map where it lacked
/// their names, the error names a field whose name the map lacked, and it
/// says that the name was refused exactly when it is no header name, the
/// value exactly when the name is one and the value is not; otherwise the
/// map had no room, and held `FULL_AT_LEAST` fields or more.
pub open spec fn refused_at(before: Fields, after: Fields, fields: Fields, error: InsertError) -> bool {
    &&& error.index < fields.len()
    &&& after == with_defaults(before, normalized(fields).take(error.index as int))
    &&& !has_field(after, fields[error.index as int].0)
    &&& error.outcome !is Done
    &&& error.outcome is InvalidName <==> !valid_header_name(fields[error.index as int].0)
    &&& error.outcome is InvalidValue <==> valid_header_name(fields[error.index as int].0)
        && !valid_header_value(fields[error.index as int].1)
    &&& error.outcome is Full ==> after.len() >= FULL_AT_LEAST
}

/// Puts each of `headers` into `map` whose name the map lacks, one after the
/// other and each at the end; a header whose name the map has is left out,
/// so that what the map held stays as it was. It stops at the first header
/// that the map does not take: the error says which one it was and whether
/// its name, its value or the map's room was the reason. Headers that are
/// all well formed go in whenever the map and they together come to no more
/// than `FULL_AT_LEAST` fields.
pub fn insert_defaults(map: &mut HeaderMap<HeaderValue>, headers: &Vec<Header>) -> (result:
    Result<(), InsertError>)
    ensures
        match result {
            Ok(_) => header_fields(*final(map)) == with_defaults(
                header_fields(*old(map)),
                normalized(fields_of(headers@)),
            ),
            Err(e) => refused_at(
                header_fields(*old(map)),
                header_fields(*final(map)),
                fields_of(headers@),
                e,
            ),
        },
        all_valid(fields_of(headers@)) && header_fields(*old(map)).len() + headers@.len()
            <= FULL_AT_LEAST ==> result is Ok,
{
    let ghost fields = fields_of(headers@);
    let ghost wanted = normalized(fields);
    let mut i: usize = 0;
    assert(wanted.take(0) =~= Seq::empty());
    while i < headers.len()
        invariant
            i <= headers@.len(),
            fields == fields_of(headers@),
            wanted == normalized(fields),
            header_fields(*map) == with_defaults(header_fields(*old(map)), wanted.take(i as int)),
            header_fields(*map).len() <= header_fields(*old(map)).len() + i,
        decreases headers@.len() - i,
    {
        let ghost held = header_fields(*map);
        let ghost name = headers@[i as int]@.0;
        proof {
            let next = wanted.take(i + 1);
            assert(next.drop_last() =~= wanted.take(i as int));
            assert(next.last() == (lowered(name), headers@[i as int]@.1));
            lemma_lowered(name);
            lemma_position_same_name(held, lowered(name), name);
            lemma_position(held, name);
        }
        if !has_name(map, headers[i].name.as_slice()) {
            let outcome = try_insert(map, headers[i].name.as_slice(), headers[i].value.as_slice());
            if outcome != InsertOutcome::Done {
                return Err(InsertError { index: i, outcome });
            }
        }
        i += 1;
    }
    assert(wanted.take(i as int) =~= wanted);
    Ok(())
}

/// A new map that holds the given headers, each name once: of the headers
/// of one name, the first.
pub fn header_map_of(headers: &Vec<Header>) -> (result: Result<HeaderMap<HeaderValue>, InsertError>)
    ensures
        match result {
            Ok(map) => header_fields(map) == with_defaults(
                Seq::empty(),
                normalized(fields_of(headers@)),
            ),
            Err(e) => e.index < headers@.len() && e.outcome !is Done && (e.outcome is InvalidName
                <==> !valid_header_name(headers@[e.index as int]@.0)) && (e.outcome
                is InvalidValue <==> valid_header_name(headers@[e.index as int]@.0)
                && !valid_header_value(headers@[e.index as int]@.1)),
        },
        all_valid(fields_of(headers@)) && headers@.len() <= FULL_AT_LEAST ==> result is Ok,
{
    let mut map = empty_map();
    match insert_defaults(&mut map, headers) {
        Ok(_) => Ok(map),
        Err(e) => Err(e),
    }
}

} // verus!
