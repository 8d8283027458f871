//! Little-endian integers and byte ranges inside a received buffer.
//!
//! The simulator's connection library lays its records out without padding
//! and in the byte order of the machines it runs on, which is little-endian.
//! The functions here read and describe such fields by position.

use vstd::prelude::*;

verus! {

/// The unsigned 16-bit integer whose little-endian image starts at `at`.
pub open spec fn le_u16(s: Seq<u8>, at: int) -> u16 {
    (s[at] as int + 0x100 * (s[at + 1] as int)) as u16
}

/// The unsigned 32-bit integer whose little-endian image starts at `at`.
pub open spec fn le_u32(s: Seq<u8>, at: int) -> u32 {
    (s[at] as int + 0x100 * (s[at + 1] as int) + 0x1_0000 * (s[at + 2] as int) + 0x100_0000 * (
    s[at + 3] as int)) as u32
}

/// The unsigned 64-bit integer whose little-endian image starts at `at`.
pub open spec fn le_u64(s: Seq<u8>, at: int) -> u64 {
    (le_u32(s, at) as int + 0x1_0000_0000 * (le_u32(s, at + 4) as int)) as u64
}

/// The little-endian image of an unsigned 16-bit integer.
pub open spec fn u16_le(x: u16) -> Seq<u8> {
    seq![(x % 0x100) as u8, (x / 0x100) as u8]
}

/// The little-endian image of an unsigned 32-bit integer.
pub open spec fn u32_le(x: u32) -> Seq<u8> {
    seq![
        (x % 0x100) as u8,
        (x / 0x100 % 0x100) as u8,
        (x / 0x1_0000 % 0x100) as u8,
        (x / 0x100_0000) as u8,
    ]
}

/// The little-endian image of an unsigned 64-bit integer.
pub open spec fn u64_le(x: u64) -> Seq<u8> {
    u32_le((x % 0x1_0000_0000) as u32) + u32_le((x / 0x1_0000_0000) as u32)
}

/// Two neighbouring ranges of a sequence make up the range that spans both.
pub proof fn lemma_join(s: Seq<u8>, a: int, b: int, c: int)
    requires
        0 <= a <= b <= c <= s.len(),
    ensures
        s.subrange(a, b) + s.subrange(b, c) == s.subrange(a, c),
{
    assert(s.subrange(a, b) + s.subrange(b, c) =~= s.subrange(a, c));
}

/// Four bytes are the quotients and remainders of the number they spell.
proof fn lemma_u32_digits(b0: u8, b1: u8, b2: u8, b3: u8)
    by (bit_vector)
    ensures
        ({
            let x = b0 as u64 + 0x100 * (b1 as u64) + 0x1_0000 * (b2 as u64) + 0x100_0000 * (
            b3 as u64);
            &&& x <= 0xffff_ffff
            &&& x % 0x100 == b0
            &&& x / 0x100 % 0x100 == b1
            &&& x / 0x1_0000 % 0x100 == b2
            &&& x / 0x100_0000 == b3
        }),
{
}

/// Writing out an integer read from two bytes gives those bytes back.
pub proof fn lemma_u16_image(s: Seq<u8>, at: int)
    requires
        0 <= at,
        at + 2 <= s.len(),
    ensures
        u16_le(le_u16(s, at)) == s.subrange(at, at + 2),
{
    let b0 = s[at];
    let b1 = s[at + 1];
    assert({
        let x = b0 as u32 + 0x100 * (b1 as u32);
        x <= 0xffff && x % 0x100 == b0 && x / 0x100 == b1
    }) by (bit_vector);
    assert(u16_le(le_u16(s, at)) =~= s.subrange(at, at + 2));
}

/// Writing out an integer read from four bytes gives those bytes back.
pub proof fn lemma_u32_image(s: Seq<u8>, at: int)
    requires
        0 <= at,
        at + 4 <= s.len(),
    ensures
        u32_le(le_u32(s, at)) == s.subrange(at, at + 4),
{
    lemma_u32_digits(s[at], s[at + 1], s[at + 2], s[at + 3]);
    assert(u32_le(le_u32(s, at)) =~= s.subrange(at, at + 4));
}

/// Writing out an integer read from eight bytes gives those bytes back.
pub proof fn lemma_u64_image(s: Seq<u8>, at: int)
    requires
        0 <= at,
        at + 8 <= s.len(),
    ensures
        u64_le(le_u64(s, at)) == s.subrange(at, at + 8),
{
    lemma_u32_image(s, at);
    lemma_u32_image(s, at + 4);
    let lo = le_u32(s, at);
    let hi = le_u32(s, at + 4);
    let x = le_u64(s, at);
    assert({
        let y = lo as u64 + 0x1_0000_0000 * (hi as u64);
        y % 0x1_0000_0000 == lo && y / 0x1_0000_0000 == hi
    }) by (bit_vector);
    assert((x % 0x1_0000_0000) as u32 == lo);
    assert((x / 0x1_0000_0000) as u32 == hi);
    assert(u64_le(x) =~= s.subrange(at, at + 8));
}

/// Reads the unsigned 16-bit integer stored at `at`.
pub(crate) fn read_u16(buf: &[u8], at: usize) -> (x: u16)
    requires
        at + 2 <= buf.len(),
    ensures
        x == le_u16(buf@, at as int),
{
    let b0: u16 = buf[at] as u16;
    let b1: u16 = buf[at + 1] as u16;
    b0 + 0x100 * b1
}

/// Reads the unsigned 32-bit integer stored at `at`.
pub(crate) fn read_u32(buf: &[u8], at: usize) -> (x: u32)
    requires
        at + 4 <= buf.len(),
    ensures
        x == le_u32(buf@, at as int),
{
    let b0: u32 = buf[at] as u32;
    let b1: u32 = buf[at + 1] as u32;
    let b2: u32 = buf[at + 2] as u32;
    let b3: u32 = buf[at + 3] as u32;
    b0 + 0x100 * b1 + 0x1_0000 * b2 + 0x100_0000 * b3
}

/// Reads the unsigned 64-bit integer stored at `at`.
pub(crate) fn read_u64(buf: &[u8], at: usize) -> (x: u64)
    requires
        at + 8 <= buf.len(),
    ensures
        x == le_u64(buf@, at as int),
{
    let lo: u64 = read_u32(buf, at) as u64;
    let hi: u64 = read_u32(buf, at + 4) as u64;
    lo + 0x1_0000_0000 * hi
}

/// Copies the bytes from `from` up to, not including, `to`.
pub(crate) fn read_bytes(buf: &[u8], from: usize, to: usize) -> (out: Vec<u8>)
    requires
        from <= to <= buf.len(),
    ensures
        out@ == buf@.subrange(from as int, to as int),
{
    let mut out: Vec<u8> = Vec::new();
    let mut i: usize = from;
    while i < to
        invariant
            from <= i <= to <= buf.len(),
            out@ == buf@.subrange(from as int, i as int),
        decreases to - i,
    {
        out.push(buf[i]);
        i = i + 1;
    }
    out
}

/// Reads the unsigned 32-bit integer stored at `at`, if the buffer holds
/// four bytes there.
pub fn get_u32(buf: &[u8], at: usize) -> (out: Option<u32>)
    ensures
        out is Some <==> at + 4 <= buf@.len(),
        out matches Some(x) ==> x == le_u32(buf@, at as int),
{
    if buf.len() < 4 || at > buf.len() - 4 {
        None
    } else {
        Some(read_u32(buf, at))
    }
}

/// Reads the unsigned 64-bit integer stored at `at`, if the buffer holds
/// eight bytes there.
pub fn get_u64(buf: &[u8], at: usize) -> (out: Option<u64>)
    ensures
        out is Some <==> at + 8 <= buf@.len(),
        out matches Some(x) ==> x == le_u64(buf@, at as int),
{
    if buf.len() < 8 || at > buf.len() - 8 {
        None
    } else {
        Some(read_u64(buf, at))
    }
}

/// Copies the bytes from `from` up to, not including, `to`, if the buffer
/// holds them.
pub fn get_bytes(buf: &[u8], from: usize, to: usize) -> (out: Option<Vec<u8>>)
    ensures
        out is Some <==> from <= to <= buf@.len(),
        out matches Some(bytes) ==> bytes@ == buf@.subrange(from as int, to as int),
{
    if from <= to && to <= buf.len() {
        Some(read_bytes(buf, from, to))
    } else {
        None
    }
}

} // verus!
