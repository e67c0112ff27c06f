//! Small verified helpers on strings and byte strings.

use vstd::prelude::*;
use vstd::string::*;
use vstd::utf8::*;

verus! {

/// Whether two byte strings hold the same bytes.
pub fn bytes_eq(a: &[u8], b: &[u8]) -> (same: bool)
    ensures
        same == (a@ == b@),
{
    if a.len() != b.len() {
        return false;
    }
    let mut i: usize = 0;
    while i < a.len()
        invariant
            a@.len() == b@.len(),
            i <= a@.len(),
            forall|k: int| 0 <= k < i ==> a@[k] == b@[k],
        decreases a@.len() - i,
    {
        if a[i] != b[i] {
            return false;
        }
        i += 1;
    }
    assert(a@ =~= b@);
    true
}

/// Two strings have the same UTF-8 bytes exactly when they are the same
/// sequence of characters.
pub proof fn lemma_same_bytes_same_chars(a: Seq<char>, b: Seq<char>)
    ensures
        (encode_utf8(a) == encode_utf8(b)) <==> a == b,
{
    encode_utf8_decode_utf8(a);
    encode_utf8_decode_utf8(b);
}

/// Whether two strings are equal, character for character.
pub fn str_eq(a: &str, b: &str) -> (same: bool)
    ensures
        same == (a@ == b@),
{
    proof {
        lemma_same_bytes_same_chars(a@, b@);
    }
    bytes_eq(a.as_bytes(), b.as_bytes())
}

/// The strings of `parts`, each followed by `sep` except the last.
pub open spec fn joined(parts: Seq<Seq<char>>, sep: Seq<char>) -> Seq<char>
    decreases parts.len(),
{
    if parts.len() == 0 {
        Seq::empty()
    } else if parts.len() == 1 {
        parts[0]
    } else {
        joined(parts.drop_last(), sep) + sep + parts.last()
    }
}

/// The parts of a text between its separators: one more than it has
/// separators.
pub open spec fn split(text: Seq<char>, sep: char) -> Seq<Seq<char>>
    decreases text.len(),
{
    if text.len() == 0 {
        seq![Seq::empty()]
    } else {
        let before = split(text.drop_last(), sep);
        if text.last() == sep {
            before.push(Seq::empty())
        } else {
            before.drop_last().push(before.last().push(text.last()))
        }
    }
}

/// Whether a text holds no separator.
pub open spec fn free_of(text: Seq<char>, sep: char) -> bool {
    forall|i: int| 0 <= i < text.len() ==> #[trigger] text[i] != sep
}

/// A text has at least one part.
pub proof fn lemma_split_len(text: Seq<char>, sep: char)
    ensures
        split(text, sep).len() >= 1,
    decreases text.len(),
{
    if text.len() > 0 {
        lemma_split_len(text.drop_last(), sep);
    }
}

/// A text that goes on without a separator has its last part go on.
pub proof fn lemma_split_append(text: Seq<char>, more: Seq<char>, sep: char)
    requires
        free_of(more, sep),
    ensures
        split(text + more, sep) == split(text, sep).drop_last().push(
            split(text, sep).last() + more,
        ),
    decreases more.len(),
{
    lemma_split_len(text, sep);
    let parts = split(text, sep);
    if more.len() == 0 {
        assert(text + more =~= text);
        assert(parts.last() + more =~= parts.last());
        assert(parts.drop_last().push(parts.last()) =~= parts);
    } else {
        let shorter = more.drop_last();
        assert forall|i: int| 0 <= i < shorter.len() implies #[trigger] shorter[i] != sep by {
            assert(shorter[i] == more[i]);
        }
        lemma_split_append(text, shorter, sep);
        let whole = text + more;
        assert(whole.drop_last() =~= text + shorter);
        assert(whole.last() == more[more.len() - 1]);
        let before = split(text + shorter, sep);
        assert(before.drop_last() =~= parts.drop_last());
        assert(before.last().push(more.last()) =~= parts.last() + more);
    }
}

/// Splitting what was joined gives the parts back, in their order: for at
/// least one part, and parts that hold no separator.
pub proof fn lemma_split_joined(parts: Seq<Seq<char>>, sep: char)
    requires
        parts.len() >= 1,
        forall|i: int| 0 <= i < parts.len() ==> free_of(#[trigger] parts[i], sep),
    ensures
        split(joined(parts, seq![sep]), sep) == parts,
    decreases parts.len(),
{
    let empty = Seq::<char>::empty();
    if parts.len() == 1 {
        lemma_split_append(empty, parts[0], sep);
        assert(empty + parts[0] =~= parts[0]);
        assert(split(empty, sep) =~= seq![empty]);
        assert(seq![empty].drop_last().push(empty + parts[0]) =~= parts);
    } else {
        let shorter = parts.drop_last();
        let last = parts.last();
        assert forall|i: int| 0 <= i < shorter.len() implies free_of(#[trigger] shorter[i], sep) by {
            assert(shorter[i] == parts[i]);
        }
        lemma_split_joined(shorter, sep);
        let head = joined(shorter, seq![sep]) + seq![sep];
        assert(head.drop_last() =~= joined(shorter, seq![sep]));
        assert(head.last() == sep);
        assert(split(head, sep) == shorter.push(empty));
        lemma_split_append(head, last, sep);
        assert(shorter.push(empty).drop_last() =~= shorter);
        assert(empty + last =~= last);
        assert(shorter.push(last) =~= parts);
    }
}

} // verus!
