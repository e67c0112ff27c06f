//! The lists of a ClientHello as bytes: `cipher_suites`, and the bodies of
//! `supported_groups` and `signature_algorithms`, are each a list of 16-bit
//! codes with the number of its bytes in front.

use vstd::prelude::*;
use crate::bytes::{
    be16, from_be16, lemma_be16_round_trip, put_be16, read_be16,
};

verus! {

/// The most codes that a list can hold: its length in bytes takes 16 bits.
pub const MAX_CODES: usize = 32767;

/// The codes of a list, two bytes each.
pub open spec fn codes_payload(codes: Seq<u16>) -> Seq<u8>
    decreases codes.len(),
{
    if codes.len() == 0 {
        Seq::empty()
    } else {
        codes_payload(codes.drop_last()) + be16(codes.last())
    }
}

/// A list of codes on the wire: the number of its bytes, then the codes in
/// order.
pub open spec fn code_list(codes: Seq<u16>) -> Seq<u8> {
    be16((2 * codes.len()) as u16) + codes_payload(codes)
}

/// The codes that a run of bytes holds, two bytes each; `None` where a byte
/// is left over.
pub open spec fn decode_payload(bytes: Seq<u8>) -> Option<Seq<u16>>
    decreases bytes.len(),
{
    if bytes.len() == 0 {
        Some(Seq::empty())
    } else if bytes.len() < 2 {
        None
    } else {
        let cut = bytes.len() - 2;
        match decode_payload(bytes.take(cut)) {
            Some(before) => Some(before.push(from_be16(bytes.skip(cut)))),
            None => None,
        }
    }
}

/// The codes of a list on the wire; `None` where the bytes are no list: the
/// length in front is not the number of bytes that follow, or that number is
/// odd.
pub open spec fn decode_codes(bytes: Seq<u8>) -> Option<Seq<u16>> {
    if bytes.len() < 2 || from_be16(bytes.take(2)) != bytes.len() - 2 {
        None
    } else {
        decode_payload(bytes.skip(2))
    }
}

/// Each code takes two bytes.
pub proof fn lemma_codes_payload_len(codes: Seq<u16>)
    ensures
        codes_payload(codes).len() == 2 * codes.len(),
    decreases codes.len(),
{
    if codes.len() > 0 {
        lemma_codes_payload_len(codes.drop_last());
    }
}

/// Reading the codes back gives the codes, in their order.
pub proof fn lemma_payload_round_trip(codes: Seq<u16>)
    ensures
        decode_payload(codes_payload(codes)) == Some(codes),
    decreases codes.len(),
{
    if codes.len() > 0 {
        let shorter = codes.drop_last();
        let bytes = codes_payload(codes);
        lemma_codes_payload_len(codes);
        lemma_codes_payload_len(shorter);
        lemma_payload_round_trip(shorter);
        let cut = bytes.len() - 2;
        assert(bytes.take(cut) =~= codes_payload(shorter));
        assert(bytes.skip(cut) =~= be16(codes.last()));
        lemma_be16_round_trip(codes.last());
        assert(shorter.push(codes.last()) =~= codes);
    }
}

/// Reading a list back gives the codes that were written, in their order:
/// what a profile declares is what the wire holds.
pub proof fn lemma_code_list_round_trip(codes: Seq<u16>)
    requires
        codes.len() <= MAX_CODES,
    ensures
        decode_codes(code_list(codes)) == Some(codes),
{
    let bytes = code_list(codes);
    lemma_codes_payload_len(codes);
    lemma_payload_round_trip(codes);
    assert(bytes.take(2) =~= be16((2 * codes.len()) as u16));
    lemma_be16_round_trip((2 * codes.len()) as u16);
    assert(bytes.skip(2) =~= codes_payload(codes));
}

/// A list of codes on the wire; `None` where the codes are more than a list
/// can hold.
pub fn encode_codes(codes: &Vec<u16>) -> (result: Option<Vec<u8>>)
    ensures
        match result {
            Some(bytes) => codes@.len() <= MAX_CODES && bytes@ == code_list(codes@),
            None => codes@.len() > MAX_CODES,
        },
{
    let count = codes.len();
    if count > MAX_CODES {
        return None;
    }
    let mut out: Vec<u8> = Vec::new();
    put_be16(&mut out, (2 * count) as u16);
    let ghost head = out@;
    let mut i: usize = 0;
    assert(codes@.take(0) =~= Seq::empty());
    assert(head + Seq::empty() =~= head);
    while i < count
        invariant
            i <= count == codes@.len(),
            out@ == head + codes_payload(codes@.take(i as int)),
        decreases count - i,
    {
        put_be16(&mut out, codes[i]);
        proof {
            let next = codes@.take(i + 1);
            assert(next.drop_last() =~= codes@.take(i as int));
            assert(next.last() == codes@[i as int]);
            assert(out@ =~= head + codes_payload(next));
        }
        i += 1;
    }
    assert(codes@.take(i as int) =~= codes@);
    Some(out)
}

/// A run without a byte left over holds codes.
proof fn lemma_odd_payload(bytes: Seq<u8>)
    ensures
        decode_payload(bytes) is Some <==> bytes.len() % 2 == 0,
    decreases bytes.len(),
{
    if bytes.len() >= 2 {
        lemma_odd_payload(bytes.take(bytes.len() - 2));
    }
}

/// What one more code adds to what a run of bytes holds.
proof fn lemma_decode_step(bytes: Seq<u8>, n: int)
    requires
        0 <= n,
        n + 2 <= bytes.len(),
    ensures
        decode_payload(bytes.take(n + 2)) == match decode_payload(bytes.take(n)) {
            Some(before) => Some(before.push(from_be16(bytes.subrange(n, n + 2)))),
            None => None,
        },
{
    let next = bytes.take(n + 2);
    let cut = next.len() - 2;
    assert(cut == n);
    assert(next.take(cut) =~= bytes.take(n));
    assert(next.skip(cut) =~= bytes.subrange(n, n + 2));
}

/// The codes of a list on the wire, in their order; `None` where the bytes
/// are no list.
pub fn read_codes(bytes: &[u8]) -> (result: Option<Vec<u16>>)
    ensures
        match result {
            Some(codes) => decode_codes(bytes@) == Some(codes@),
            None => decode_codes(bytes@) is None,
        },
{
    let total = bytes.len();
    if total < 2 {
        return None;
    }
    let length = read_be16(bytes, 0);
    assert(bytes@.subrange(0, 2) =~= bytes@.take(2));
    if length as usize != total - 2 {
        return None;
    }
    let payload = vstd::slice::slice_subrange(bytes, 2, total);
    assert(payload@ =~= bytes@.skip(2));
    let size = payload.len();
    if size % 2 != 0 {
        proof {
            lemma_odd_payload(payload@);
        }
        return None;
    }
    let mut codes: Vec<u16> = Vec::new();
    let mut at: usize = 0;
    assert(payload@.take(0) =~= Seq::empty());
    while at < size
        invariant
            at <= size == payload@.len(),
            at % 2 == 0,
            size % 2 == 0,
            decode_payload(payload@.take(at as int)) == Some(codes@),
        decreases size - at,
    {
        let code = read_be16(payload, at);
        proof {
            lemma_decode_step(payload@, at as int);
        }
        codes.push(code);
        at += 2;
    }
    assert(payload@.take(at as int) =~= payload@);
    Some(codes)
}

} // verus!
