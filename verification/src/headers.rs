//! The header profile: the headers a browser always sends, and the order in
//! which header names appear on the wire.
//!
//! Header names and values are byte strings. Names are compared without
//! regard to ASCII case; what is emitted keeps the casing of whoever supplied
//! the header.

use vstd::prelude::*;
use vstd::slice::*;
use vstd::string::*;

verus! {

/// A list of header fields as the contracts see it: name and value, in order.
pub type Fields = Seq<(Seq<u8>, Seq<u8>)>;

/// One header field.
#[derive(Debug)]
pub struct Header {
    pub name: Vec<u8>,
    pub value: Vec<u8>,
}

impl View for Header {
    type V = (Seq<u8>, Seq<u8>);

    open spec fn view(&self) -> (Seq<u8>, Seq<u8>) {
        (self.name@, self.value@)
    }
}

/// The fields of a list of headers.
pub open spec fn fields_of(headers: Seq<Header>) -> Fields {
    Seq::new(headers.len(), |i: int| headers[i]@)
}

/// The byte strings of a list of names.
pub open spec fn names_of(names: Seq<Vec<u8>>) -> Seq<Seq<u8>> {
    Seq::new(names.len(), |i: int| names[i]@)
}

/// An ASCII letter in lower case; any other byte unchanged.
pub open spec fn lower(b: u8) -> u8 {
    if 0x41 <= b <= 0x5a {
        (b + 0x20) as u8
    } else {
        b
    }
}

/// A byte string with its ASCII letters in lower case.
pub open spec fn lowered(s: Seq<u8>) -> Seq<u8> {
    Seq::new(s.len(), |i: int| lower(s[i]))
}

/// Whether two header names are the same name, ignoring ASCII case.
pub open spec fn same_name(a: Seq<u8>, b: Seq<u8>) -> bool {
    lowered(a) == lowered(b)
}

/// The index of the first name of `names` that is `name`, or the length of
/// `names` where none is.
pub open spec fn rank(names: Seq<Seq<u8>>, name: Seq<u8>) -> int
    decreases names.len(),
{
    if names.len() == 0 {
        0
    } else if same_name(names[0], name) {
        0
    } else {
        1 + rank(names.drop_first(), name)
    }
}

/// The names of a list of fields.
pub open spec fn field_names(fields: Fields) -> Seq<Seq<u8>> {
    Seq::new(fields.len(), |i: int| fields[i].0)
}

/// The index of the first field of `fields` named `name`, or the length of
/// `fields` where none is.
pub open spec fn position(fields: Fields, name: Seq<u8>) -> int {
    rank(field_names(fields), name)
}

/// Whether some field of `fields` is named `name`.
pub open spec fn has_field(fields: Fields, name: Seq<u8>) -> bool {
    position(fields, name) < fields.len()
}

/// Whether `name` is one of `names`.
pub open spec fn listed(names: Seq<Seq<u8>>, name: Seq<u8>) -> bool {
    rank(names, name) < names.len()
}

/// `map` after `field` is set in it: in the place of the field of that name
/// where there is one, at the end otherwise.
pub open spec fn upsert(map: Fields, field: (Seq<u8>, Seq<u8>)) -> Fields {
    let p = position(map, field.0);
    if p < map.len() {
        map.update(p, field)
    } else {
        map.push(field)
    }
}

/// The map that inserting `headers` one after the other builds: one field
/// for each name, where the name first came, with the value that came last.
pub open spec fn collected(headers: Fields) -> Fields
    decreases headers.len(),
{
    if headers.len() == 0 {
        Seq::empty()
    } else {
        upsert(collected(headers.drop_last()), headers.last())
    }
}

/// `map` followed by each field of `defaults` whose name `map` lacks.
pub open spec fn with_defaults(map: Fields, defaults: Fields) -> Fields
    decreases defaults.len(),
{
    if defaults.len() == 0 {
        map
    } else {
        let before = with_defaults(map, defaults.drop_last());
        if has_field(before, defaults.last().0) {
            before
        } else {
            before.push(defaults.last())
        }
    }
}

/// The fields of `map` that `order` names, in the order of `order`. A name
/// that `order` holds twice counts where it stands first; a name that `map`
/// lacks takes no place.
pub open spec fn picked(map: Fields, order: Seq<Seq<u8>>) -> Fields
    decreases order.len(),
{
    if order.len() == 0 {
        Seq::empty()
    } else {
        let before = picked(map, order.drop_last());
        let p = position(map, order.last());
        if p < map.len() && !listed(order.drop_last(), order.last()) {
            before.push(map[p])
        } else {
            before
        }
    }
}

/// The fields of `map` that `order` does not name, in the order of `map`.
pub open spec fn unlisted(map: Fields, order: Seq<Seq<u8>>) -> Fields
    decreases map.len(),
{
    if map.len() == 0 {
        Seq::empty()
    } else {
        let before = unlisted(map.drop_last(), order);
        if listed(order, map.last().0) {
            before
        } else {
            before.push(map.last())
        }
    }
}

/// What a request's own headers and a profile's defaults merge to, before
/// ordering: the request's headers, then the defaults it did not supply.
pub open spec fn merged(defaults: Fields, caller: Fields) -> Fields {
    with_defaults(collected(caller), defaults)
}

/// The header sequence of a request: the merged headers that `order` names,
/// in the order of `order`, then the others as they were inserted.
pub open spec fn composed(defaults: Fields, order: Seq<Seq<u8>>, caller: Fields) -> Fields {
    let map = merged(defaults, caller);
    picked(map, order) + unlisted(map, order)
}

/// What `rank` returns, without the recursion.
pub proof fn lemma_rank(names: Seq<Seq<u8>>, name: Seq<u8>)
    ensures
        0 <= rank(names, name) <= names.len(),
        forall|k: int| 0 <= k < rank(names, name) ==> !same_name(#[trigger] names[k], name),
        rank(names, name) < names.len() ==> same_name(names[rank(names, name)], name),
    decreases names.len(),
{
    if names.len() == 0 {
    } else if same_name(names[0], name) {
    } else {
        let rest = names.drop_first();
        lemma_rank(rest, name);
        assert forall|k: int| 0 <= k < rank(names, name) implies !same_name(
            #[trigger] names[k],
            name,
        ) by {
            if k > 0 {
                assert(names[k] == rest[k - 1]);
            }
        }
        if rank(names, name) < names.len() {
            assert(names[rank(names, name)] == rest[rank(rest, name)]);
        }
    }
}

/// The first index with a given property is the rank.
pub proof fn lemma_rank_is(names: Seq<Seq<u8>>, name: Seq<u8>, p: int)
    requires
        0 <= p <= names.len(),
        forall|k: int| 0 <= k < p ==> !same_name(#[trigger] names[k], name),
        p < names.len() ==> same_name(names[p], name),
    ensures
        rank(names, name) == p,
{
    lemma_rank(names, name);
    let q = rank(names, name);
    if q < p {
        assert(!same_name(names[q], name));
    } else if p < q {
        assert(!same_name(names[p], name));
    }
}

/// What `position` returns, without the recursion.
pub proof fn lemma_position(fields: Fields, name: Seq<u8>)
    ensures
        0 <= position(fields, name) <= fields.len(),
        forall|k: int| 0 <= k < position(fields, name) ==> !same_name((#[trigger] fields[k]).0, name),
        position(fields, name) < fields.len() ==> same_name(
            fields[position(fields, name)].0,
            name,
        ),
{
    lemma_rank(field_names(fields), name);
    assert forall|k: int| 0 <= k < position(fields, name) implies !same_name(
        (#[trigger] fields[k]).0,
        name,
    ) by {
        assert(field_names(fields)[k] == fields[k].0);
    }
}

/// The first index with a given property is the position.
pub proof fn lemma_position_is(fields: Fields, name: Seq<u8>, p: int)
    requires
        0 <= p <= fields.len(),
        forall|k: int| 0 <= k < p ==> !same_name((#[trigger] fields[k]).0, name),
        p < fields.len() ==> same_name(fields[p].0, name),
    ensures
        position(fields, name) == p,
{
    assert forall|k: int| 0 <= k < p implies !same_name(
        #[trigger] field_names(fields)[k],
        name,
    ) by {
        assert(!same_name(fields[k].0, name));
    }
    lemma_rank_is(field_names(fields), name, p);
}

/// The rank of a name among the first `n` names is its rank among all of
/// them, or `n` where that is further on.
pub proof fn lemma_rank_prefix(names: Seq<Seq<u8>>, n: int, name: Seq<u8>)
    requires
        0 <= n <= names.len(),
    ensures
        rank(names.take(n), name) == if rank(names, name) < n {
            rank(names, name)
        } else {
            n
        },
{
    lemma_rank(names, name);
    let r = rank(names, name);
    let p = if r < n { r } else { n };
    assert forall|k: int| 0 <= k < p implies !same_name(#[trigger] names.take(n)[k], name) by {
        assert(names.take(n)[k] == names[k]);
    }
    lemma_rank_is(names.take(n), name, p);
}

/// An ASCII letter in lower case; any other byte unchanged.
pub fn to_lower(b: u8) -> (l: u8)
    ensures
        l == lower(b),
{
    if 0x41 <= b && b <= 0x5a {
        b + 0x20
    } else {
        b
    }
}

/// Whether two header names are the same name, ignoring ASCII case.
pub fn names_match(a: &[u8], b: &[u8]) -> (same: bool)
    ensures
        same == same_name(a@, b@),
{
    if a.len() != b.len() {
        assert(lowered(a@).len() != lowered(b@).len());
        return false;
    }
    let mut i: usize = 0;
    while i < a.len()
        invariant
            a@.len() == b@.len(),
            i <= a@.len(),
            forall|k: int| 0 <= k < i ==> lower(a@[k]) == lower(b@[k]),
        decreases a@.len() - i,
    {
        if to_lower(a[i]) != to_lower(b[i]) {
            assert(lowered(a@)[i as int] != lowered(b@)[i as int]);
            return false;
        }
        i += 1;
    }
    assert(lowered(a@) =~= lowered(b@));
    true
}

/// The index of the first header of `headers` named `name`, or their number
/// where none is.
pub fn find_header(headers: &Vec<Header>, name: &[u8]) -> (p: usize)
    ensures
        p == position(fields_of(headers@), name@),
{
    let mut i: usize = 0;
    while i < headers.len()
        invariant
            i <= headers@.len(),
            forall|k: int|
                0 <= k < i ==> !same_name((#[trigger] fields_of(headers@)[k]).0, name@),
        decreases headers@.len() - i,
    {
        if names_match(headers[i].name.as_slice(), name) {
            proof {
                lemma_position_is(fields_of(headers@), name@, i as int);
            }
            return i;
        }
        i += 1;
    }
    proof {
        lemma_position_is(fields_of(headers@), name@, i as int);
    }
    i
}

/// The index of the first name of `names` that is `name`, or their number
/// where none is.
pub fn find_name(names: &Vec<Vec<u8>>, name: &[u8]) -> (p: usize)
    ensures
        p == rank(names_of(names@), name@),
{
    let mut i: usize = 0;
    while i < names.len()
        invariant
            i <= names@.len(),
            forall|k: int| 0 <= k < i ==> !same_name(#[trigger] names_of(names@)[k], name@),
        decreases names@.len() - i,
    {
        if names_match(names[i].as_slice(), name) {
            proof {
                lemma_rank_is(names_of(names@), name@, i as int);
            }
            return i;
        }
        i += 1;
    }
    proof {
        lemma_rank_is(names_of(names@), name@, i as int);
    }
    i
}

impl Header {
    /// A header of the given name and value.
    pub fn new(name: &str, value: &str) -> (h: Header)
        ensures
            h@ == (name.spec_bytes(), value.spec_bytes()),
    {
        Header { name: name.as_bytes_vec(), value: value.as_bytes_vec() }
    }

    /// A header of the given name and value, both as bytes.
    pub fn from_bytes(name: &[u8], value: &[u8]) -> (h: Header)
        ensures
            h@ == (name@, value@),
    {
        Header { name: slice_to_vec(name), value: slice_to_vec(value) }
    }

    /// A copy of this header.
    pub fn duplicate(&self) -> (h: Header)
        ensures
            h@ == self@,
    {
        Header {
            name: slice_to_vec(self.name.as_slice()),
            value: slice_to_vec(self.value.as_slice()),
        }
    }
}

/// The map that inserting `headers` one after the other builds.
pub fn collect_headers(headers: &Vec<Header>) -> (map: Vec<Header>)
    ensures
        fields_of(map@) == collected(fields_of(headers@)),
{
    let mut map: Vec<Header> = Vec::new();
    let mut i: usize = 0;
    assert(fields_of(headers@).take(0) =~= Seq::empty());
    assert(fields_of(map@) =~= Seq::empty());
    while i < headers.len()
        invariant
            i <= headers@.len(),
            fields_of(map@) == collected(fields_of(headers@).take(i as int)),
        decreases headers@.len() - i,
    {
        let ghost before = fields_of(map@);
        let ghost field = headers@[i as int]@;
        let p = find_header(&map, headers[i].name.as_slice());
        let h = headers[i].duplicate();
        if p < map.len() {
            map.set(p, h);
            assert(fields_of(map@) =~= before.update(p as int, field));
        } else {
            map.push(h);
            assert(fields_of(map@) =~= before.push(field));
        }
        proof {
            let next = fields_of(headers@).take(i + 1);
            assert(next.drop_last() =~= fields_of(headers@).take(i as int));
            assert(next.last() == field);
        }
        i += 1;
    }
    assert(fields_of(headers@).take(i as int) =~= fields_of(headers@));
    map
}

/// Adds to `map` each header of `defaults` whose name it lacks.
pub fn add_defaults(map: &mut Vec<Header>, defaults: &Vec<Header>)
    ensures
        fields_of(final(map)@) == with_defaults(fields_of(old(map)@), fields_of(defaults@)),
{
    let mut i: usize = 0;
    assert(fields_of(defaults@).take(0) =~= Seq::empty());
    while i < defaults.len()
        invariant
            i <= defaults@.len(),
            fields_of(map@) == with_defaults(
                fields_of(old(map)@),
                fields_of(defaults@).take(i as int),
            ),
        decreases defaults@.len() - i,
    {
        let ghost before = fields_of(map@);
        let ghost field = defaults@[i as int]@;
        let p = find_header(map, defaults[i].name.as_slice());
        if p >= map.len() {
            map.push(defaults[i].duplicate());
            assert(fields_of(map@) =~= before.push(field));
        }
        proof {
            let next = fields_of(defaults@).take(i + 1);
            assert(next.drop_last() =~= fields_of(defaults@).take(i as int));
            assert(next.last() == field);
        }
        i += 1;
    }
    assert(fields_of(defaults@).take(i as int) =~= fields_of(defaults@));
}

/// The headers of `map` in wire order: those that `order` names first, in the
/// order of `order`, then the others as they stand in `map`.
pub fn arrange_headers(map: &Vec<Header>, order: &Vec<Vec<u8>>) -> (out: Vec<Header>)
    ensures
        fields_of(out@) == picked(fields_of(map@), names_of(order@)) + unlisted(
            fields_of(map@),
            names_of(order@),
        ),
{
    let mut out: Vec<Header> = Vec::new();
    let ghost fields = fields_of(map@);
    let ghost names = names_of(order@);
    let mut i: usize = 0;
    assert(names.take(0) =~= Seq::empty());
    assert(fields_of(out@) =~= Seq::empty());
    while i < order.len()
        invariant
            i <= order@.len(),
            fields == fields_of(map@),
            names == names_of(order@),
            fields_of(out@) == picked(fields, names.take(i as int)),
        decreases order@.len() - i,
    {
        let ghost before = fields_of(out@);
        let p = find_header(map, order[i].as_slice());
        let r = find_name(order, order[i].as_slice());
        proof {
            let next = names.take(i + 1);
            assert(next.drop_last() =~= names.take(i as int));
            assert(next.last() == order@[i as int]@);
            lemma_rank_prefix(names, i as int, order@[i as int]@);
        }
        if p < map.len() && r >= i {
            out.push(map[p].duplicate());
            assert(fields_of(out@) =~= before.push(fields[p as int]));
        }
        i += 1;
    }
    assert(names.take(i as int) =~= names);
    let ghost first = fields_of(out@);
    let mut j: usize = 0;
    assert(fields.take(0) =~= Seq::empty());
    assert(first + Seq::empty() =~= first);
    while j < map.len()
        invariant
            j <= map@.len(),
            fields == fields_of(map@),
            names == names_of(order@),
            first == picked(fields, names),
            fields_of(out@) == first + unlisted(fields.take(j as int), names),
        decreases map@.len() - j,
    {
        let ghost before = fields_of(out@);
        let r = find_name(order, map[j].name.as_slice());
        if r >= order.len() {
            out.push(map[j].duplicate());
            assert(fields_of(out@) =~= before.push(fields[j as int]));
        }
        proof {
            let next = fields.take(j + 1);
            assert(next.drop_last() =~= fields.take(j as int));
            assert(next.last() == fields[j as int]);
            assert(fields_of(out@) =~= first + unlisted(next, names));
        }
        j += 1;
    }
    assert(fields.take(j as int) =~= fields);
    out
}

/// The header part of a profile.
#[derive(Debug)]
pub struct HeaderProfile {
    defaults: Vec<Header>,
    order: Vec<Vec<u8>>,
}

/// A header profile as the contracts see it.
pub struct HeaderProfileView {
    /// The headers sent unless the request supplies the same name.
    pub defaults: Fields,
    /// The names that come first on the wire, in this order.
    pub order: Seq<Seq<u8>>,
}

impl View for HeaderProfile {
    type V = HeaderProfileView;

    closed spec fn view(&self) -> HeaderProfileView {
        HeaderProfileView { defaults: fields_of(self.defaults@), order: names_of(self.order@) }
    }
}

/// A copy of a list of headers.
pub fn copy_headers(headers: &Vec<Header>) -> (out: Vec<Header>)
    ensures
        fields_of(out@) == fields_of(headers@),
{
    let mut out: Vec<Header> = Vec::new();
    let mut i: usize = 0;
    while i < headers.len()
        invariant
            i <= headers@.len(),
            out@.len() == i,
            forall|k: int| 0 <= k < i ==> out@[k]@ == headers@[k]@,
        decreases headers@.len() - i,
    {
        out.push(headers[i].duplicate());
        i += 1;
    }
    assert(fields_of(out@) =~= fields_of(headers@));
    out
}

/// A copy of a list of names.
pub fn copy_names(names: &Vec<Vec<u8>>) -> (out: Vec<Vec<u8>>)
    ensures
        names_of(out@) == names_of(names@),
{
    let mut out: Vec<Vec<u8>> = Vec::new();
    let mut i: usize = 0;
    while i < names.len()
        invariant
            i <= names@.len(),
            out@.len() == i,
            forall|k: int| 0 <= k < i ==> out@[k]@ == names@[k]@,
        decreases names@.len() - i,
    {
        out.push(slice_to_vec(names[i].as_slice()));
        i += 1;
    }
    assert(names_of(out@) =~= names_of(names@));
    out
}

impl HeaderProfile {
    /// The profile with the given default headers and header order.
    pub fn new(defaults: Vec<Header>, order: Vec<Vec<u8>>) -> (profile: HeaderProfile)
        ensures
            profile@ == (HeaderProfileView {
                defaults: fields_of(defaults@),
                order: names_of(order@),
            }),
    {
        HeaderProfile { defaults, order }
    }

    /// This profile with another header order.
    pub fn with_order(&self, order: Vec<Vec<u8>>) -> (profile: HeaderProfile)
        ensures
            profile@ == (HeaderProfileView { defaults: self@.defaults, order: names_of(order@) }),
    {
        HeaderProfile { defaults: copy_headers(&self.defaults), order }
    }

    /// The default headers, in template order.
    pub fn defaults(&self) -> (out: Vec<Header>)
        ensures
            fields_of(out@) == self@.defaults,
    {
        copy_headers(&self.defaults)
    }

    /// The header order.
    pub fn order(&self) -> (out: Vec<Vec<u8>>)
        ensures
            names_of(out@) == self@.order,
    {
        copy_names(&self.order)
    }

    /// A copy of this profile.
    pub fn duplicate(&self) -> (profile: HeaderProfile)
        ensures
            profile@ == self@,
    {
        HeaderProfile { defaults: copy_headers(&self.defaults), order: copy_names(&self.order) }
    }
}

/// The headers of a request as they go on the wire: the request's own
/// headers and the profile's defaults for the names it did not supply, those
/// that the profile's order names first and in that order, the others after
/// them as they were inserted.
pub fn compose_headers(profile: &HeaderProfile, caller_headers: &Vec<Header>) -> (out: Vec<
    Header,
>)
    ensures
        fields_of(out@) == composed(
            profile@.defaults,
            profile@.order,
            fields_of(caller_headers@),
        ),
{
    let mut map = collect_headers(caller_headers);
    add_defaults(&mut map, &profile.defaults);
    arrange_headers(&map, &profile.order)
}

} // verus!
