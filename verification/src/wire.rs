//! Integers as they stand on the wire.
//!
//! Every field of a frame is big-endian at its natural width; only the
//! checksum that closes a frame is little-endian. Signed fields travel in
//! two's complement.

use vstd::prelude::*;

verus! {

/// The two bytes of `x`, high byte first.
pub open spec fn u16_be(x: u16) -> Seq<u8> {
    seq![(x / 0x100) as u8, (x % 0x100) as u8]
}

/// The two bytes of `x`, low byte first.
pub open spec fn u16_le(x: u16) -> Seq<u8> {
    seq![(x % 0x100) as u8, (x / 0x100) as u8]
}

/// The four bytes of `x`, high byte first.
pub open spec fn u32_be(x: u32) -> Seq<u8> {
    seq![
        (x / 0x100_0000) as u8,
        (x / 0x1_0000 % 0x100) as u8,
        (x / 0x100 % 0x100) as u8,
        (x % 0x100) as u8,
    ]
}

/// The 32-bit pattern that stands for `x` in two's complement.
pub open spec fn i32_bits(x: i32) -> u32 {
    if x >= 0 {
        x as u32
    } else {
        (x + 0x1_0000_0000) as u32
    }
}

/// The signed value that the 32-bit pattern `bits` stands for.
pub open spec fn i32_of_bits(bits: u32) -> i32 {
    if bits < 0x8000_0000 {
        bits as i32
    } else {
        (bits - 0x1_0000_0000) as i32
    }
}

/// The four bytes of `x` in two's complement, high byte first.
pub open spec fn i32_be(x: i32) -> Seq<u8> {
    u32_be(i32_bits(x))
}

/// The big-endian value of the two bytes of `s` that start at `at`.
pub open spec fn u16_be_at(s: Seq<u8>, at: int) -> u16
    recommends
        0 <= at,
        at + 2 <= s.len(),
{
    (s[at] * 0x100 + s[at + 1]) as u16
}

/// The little-endian value of the two bytes of `s` that start at `at`.
pub open spec fn u16_le_at(s: Seq<u8>, at: int) -> u16
    recommends
        0 <= at,
        at + 2 <= s.len(),
{
    (s[at] + s[at + 1] * 0x100) as u16
}

/// The big-endian value of the four bytes of `s` that start at `at`.
pub open spec fn u32_be_at(s: Seq<u8>, at: int) -> u32
    recommends
        0 <= at,
        at + 4 <= s.len(),
{
    (s[at] * 0x100_0000 + s[at + 1] * 0x1_0000 + s[at + 2] * 0x100 + s[at + 3]) as u32
}

/// The signed big-endian value of the four bytes of `s` that start at `at`.
pub open spec fn i32_be_at(s: Seq<u8>, at: int) -> i32
    recommends
        0 <= at,
        at + 4 <= s.len(),
{
    i32_of_bits(u32_be_at(s, at))
}

/// True when `a` and `b` both have `n` bytes or more and agree on the first
/// `n`.
pub open spec fn same_prefix(a: Seq<u8>, b: Seq<u8>, n: int) -> bool {
    a.len() >= n && b.len() >= n && forall|j: int| 0 <= j < n ==> a[j] == b[j]
}

/// Reading back what `u16_be` wrote gives the value again, wherever the two
/// bytes stand in a buffer.
pub proof fn lemma_u16_be_round_trip(x: u16, s: Seq<u8>, at: int)
    requires
        0 <= at,
        at + 2 <= s.len(),
        s.subrange(at, at + 2) == u16_be(x),
    ensures
        u16_be_at(s, at) == x,
{
    let w = s.subrange(at, at + 2);
    assert(w[0] == s[at] && w[1] == s[at + 1]);
}

/// Reading back what `u16_le` wrote gives the value again.
pub proof fn lemma_u16_le_round_trip(x: u16, s: Seq<u8>, at: int)
    requires
        0 <= at,
        at + 2 <= s.len(),
        s.subrange(at, at + 2) == u16_le(x),
    ensures
        u16_le_at(s, at) == x,
{
    let w = s.subrange(at, at + 2);
    assert(w[0] == s[at] && w[1] == s[at + 1]);
}

/// Reading back what `u32_be` wrote gives the value again.
pub proof fn lemma_u32_be_round_trip(x: u32, s: Seq<u8>, at: int)
    requires
        0 <= at,
        at + 4 <= s.len(),
        s.subrange(at, at + 4) == u32_be(x),
    ensures
        u32_be_at(s, at) == x,
{
    let w = s.subrange(at, at + 4);
    assert(w[0] == s[at] && w[1] == s[at + 1] && w[2] == s[at + 2] && w[3] == s[at + 3]);
}

/// Two's complement loses nothing: the pattern of a signed value stands for
/// that value and no other.
pub proof fn lemma_i32_bits_round_trip(x: i32)
    ensures
        i32_of_bits(i32_bits(x)) == x,
{
}

/// Reading back what `i32_be` wrote gives the value again.
pub proof fn lemma_i32_be_round_trip(x: i32, s: Seq<u8>, at: int)
    requires
        0 <= at,
        at + 4 <= s.len(),
        s.subrange(at, at + 4) == i32_be(x),
    ensures
        i32_be_at(s, at) == x,
{
    lemma_u32_be_round_trip(i32_bits(x), s, at);
    lemma_i32_bits_round_trip(x);
}

/// Appends `x`, high byte first.
pub fn push_u16_be(out: &mut Vec<u8>, x: u16)
    ensures
        final(out)@ == old(out)@ + u16_be(x),
{
    out.push((x / 0x100) as u8);
    out.push((x % 0x100) as u8);
    assert(out@ =~= old(out)@ + u16_be(x));
}

/// Appends `x`, low byte first.
pub fn push_u16_le(out: &mut Vec<u8>, x: u16)
    ensures
        final(out)@ == old(out)@ + u16_le(x),
{
    out.push((x % 0x100) as u8);
    out.push((x / 0x100) as u8);
    assert(out@ =~= old(out)@ + u16_le(x));
}

/// Appends `x`, high byte first.
pub fn push_u32_be(out: &mut Vec<u8>, x: u32)
    ensures
        final(out)@ == old(out)@ + u32_be(x),
{
    out.push((x / 0x100_0000) as u8);
    out.push((x / 0x1_0000 % 0x100) as u8);
    out.push((x / 0x100 % 0x100) as u8);
    out.push((x % 0x100) as u8);
    assert(out@ =~= old(out)@ + u32_be(x));
}

/// The 32-bit two's complement pattern of `x`.
pub fn i32_to_bits(x: i32) -> (bits: u32)
    ensures
        bits == i32_bits(x),
{
    if x >= 0 {
        x as u32
    } else {
        let lifted: u32 = (x - i32::MIN) as u32;
        lifted + 0x8000_0000
    }
}

/// The signed value of the 32-bit two's complement pattern `bits`.
pub fn i32_from_bits(bits: u32) -> (x: i32)
    ensures
        x == i32_of_bits(bits),
{
    if bits < 0x8000_0000 {
        bits as i32
    } else {
        let lowered: i32 = (bits - 0x8000_0000) as i32;
        lowered + i32::MIN
    }
}

/// Appends `x` in two's complement, high byte first.
pub fn push_i32_be(out: &mut Vec<u8>, x: i32)
    ensures
        final(out)@ == old(out)@ + i32_be(x),
{
    push_u32_be(out, i32_to_bits(x));
}

/// Reads the big-endian `u16` that starts at `at`.
pub fn read_u16_be(bytes: &[u8], at: usize) -> (x: u16)
    requires
        at + 2 <= bytes@.len(),
    ensures
        x == u16_be_at(bytes@, at as int),
{
    let high: u16 = bytes[at] as u16;
    let low: u16 = bytes[at + 1] as u16;
    high * 0x100 + low
}

/// Reads the little-endian `u16` that starts at `at`.
pub fn read_u16_le(bytes: &[u8], at: usize) -> (x: u16)
    requires
        at + 2 <= bytes@.len(),
    ensures
        x == u16_le_at(bytes@, at as int),
{
    let low: u16 = bytes[at] as u16;
    let high: u16 = bytes[at + 1] as u16;
    low + high * 0x100
}

/// Reads the big-endian `u32` that starts at `at`.
pub fn read_u32_be(bytes: &[u8], at: usize) -> (x: u32)
    requires
        at + 4 <= bytes@.len(),
    ensures
        x == u32_be_at(bytes@, at as int),
{
    let b0: u32 = bytes[at] as u32;
    let b1: u32 = bytes[at + 1] as u32;
    let b2: u32 = bytes[at + 2] as u32;
    let b3: u32 = bytes[at + 3] as u32;
    b0 * 0x100_0000 + b1 * 0x1_0000 + b2 * 0x100 + b3
}

/// Reads the signed big-endian `i32` that starts at `at`.
pub fn read_i32_be(bytes: &[u8], at: usize) -> (x: i32)
    requires
        at + 4 <= bytes@.len(),
    ensures
        x == i32_be_at(bytes@, at as int),
{
    i32_from_bits(read_u32_be(bytes, at))
}

} // verus!
