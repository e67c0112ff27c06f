//! Numbers as bytes, most significant byte first, as TLS and HTTP/2 write
//! them.

use vstd::prelude::*;

verus! {

/// A 16-bit number, most significant byte first.
pub open spec fn be16(v: u16) -> Seq<u8> {
    seq![(v / 0x100) as u8, (v % 0x100) as u8]
}

/// A 24-bit number, most significant byte first.
pub open spec fn be24(v: u32) -> Seq<u8> {
    seq![((v / 0x1_0000) % 0x100) as u8, ((v / 0x100) % 0x100) as u8, (v % 0x100) as u8]
}

/// A 32-bit number, most significant byte first.
pub open spec fn be32(v: u32) -> Seq<u8> {
    seq![
        (v / 0x100_0000) as u8,
        ((v / 0x1_0000) % 0x100) as u8,
        ((v / 0x100) % 0x100) as u8,
        (v % 0x100) as u8,
    ]
}

/// The number that two bytes spell, most significant first.
pub open spec fn from_be16(bytes: Seq<u8>) -> u16 {
    (bytes[0] * 0x100 + bytes[1]) as u16
}

/// The number that three bytes spell, most significant first.
pub open spec fn from_be24(bytes: Seq<u8>) -> u32 {
    (bytes[0] * 0x1_0000 + bytes[1] * 0x100 + bytes[2]) as u32
}

/// The number that four bytes spell, most significant first.
pub open spec fn from_be32(bytes: Seq<u8>) -> u32 {
    (bytes[0] * 0x100_0000 + bytes[1] * 0x1_0000 + bytes[2] * 0x100 + bytes[3]) as u32
}

/// Reading a 16-bit number back gives the number.
pub proof fn lemma_be16_round_trip(v: u16)
    ensures
        from_be16(be16(v)) == v,
{
}

/// Reading a 24-bit number back gives the number.
pub proof fn lemma_be24_round_trip(v: u32)
    requires
        v < 0x100_0000,
    ensures
        from_be24(be24(v)) == v,
{
}

/// Reading a 32-bit number back gives the number.
pub proof fn lemma_be32_round_trip(v: u32)
    ensures
        from_be32(be32(v)) == v,
{
}

/// The bytes of a 32-bit number, most significant first, appended to `out`.
pub fn put_be32(out: &mut Vec<u8>, v: u32)
    ensures
        final(out)@ == old(out)@ + be32(v),
{
    out.push((v / 0x100_0000) as u8);
    out.push(((v / 0x1_0000) % 0x100) as u8);
    out.push(((v / 0x100) % 0x100) as u8);
    out.push((v % 0x100) as u8);
    assert(out@ =~= old(out)@ + be32(v));
}

/// The bytes of a 16-bit number, most significant first, appended to `out`.
pub fn put_be16(out: &mut Vec<u8>, v: u16)
    ensures
        final(out)@ == old(out)@ + be16(v),
{
    out.push((v / 0x100) as u8);
    out.push((v % 0x100) as u8);
    assert(out@ =~= old(out)@ + be16(v));
}

/// The 16-bit number that the two bytes at `at` spell.
pub fn read_be16(bytes: &[u8], at: usize) -> (v: u16)
    requires
        at + 2 <= bytes@.len(),
    ensures
        v == from_be16(bytes@.subrange(at as int, at + 2)),
{
    let high: u16 = bytes[at] as u16;
    let low: u16 = bytes[at + 1] as u16;
    high * 0x100 + low
}

/// The 32-bit number that the four bytes at `at` spell.
pub fn read_be32(bytes: &[u8], at: usize) -> (v: u32)
    requires
        at + 4 <= bytes@.len(),
    ensures
        v == from_be32(bytes@.subrange(at as int, at + 4)),
{
    let a: u32 = bytes[at] as u32;
    let b: u32 = bytes[at + 1] as u32;
    let c: u32 = bytes[at + 2] as u32;
    let d: u32 = bytes[at + 3] as u32;
    a * 0x100_0000 + b * 0x1_0000 + c * 0x100 + d
}

} // verus!
