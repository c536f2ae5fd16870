//! CRC-16/MODBUS, the checksum that closes every frame on the serial link.
//!
//! The checksum is defined here bit by bit, as Modbus over serial line
//! defines it: a 16-bit register that starts at `0xFFFF`, takes each byte by
//! exclusive or into its low half and is then shifted right eight times,
//! folding in the reflected polynomial `0xA001` whenever a set bit leaves.
//! The value itself is computed by the `crc` crate.

use crate::wire::read_u16_le;
use crate::wire::u16_le_at;
use vstd::prelude::*;
use vstd::slice::slice_subrange;

verus! {

/// One right shift of the checksum register.
pub open spec fn crc_shift(reg: u16) -> u16 {
    if reg & 1 == 1 {
        (reg >> 1) ^ 0xA001
    } else {
        reg >> 1
    }
}

/// Four shifts of the checksum register.
pub open spec fn crc_shift4(reg: u16) -> u16 {
    crc_shift(crc_shift(crc_shift(crc_shift(reg))))
}

/// The register after one more byte of input: the byte enters the low half,
/// then the register is shifted eight times.
pub open spec fn crc_byte(reg: u16, byte: u8) -> u16 {
    crc_shift4(crc_shift4(reg ^ (byte as u16)))
}

/// The register after all of `data`, starting from `reg`.
pub open spec fn crc_fold(reg: u16, data: Seq<u8>) -> u16
    decreases data.len(),
{
    if data.len() == 0 {
        reg
    } else {
        crc_byte(crc_fold(reg, data.drop_last()), data.last())
    }
}

/// CRC-16/MODBUS of `data`.
pub open spec fn crc16_modbus(data: Seq<u8>) -> u16 {
    crc_fold(0xFFFF, data)
}

/// True when `frame` ends in the checksum of all the bytes before it.
pub open spec fn crc_trailer_ok(frame: Seq<u8>) -> bool {
    frame.len() >= 2 && crc16_modbus(frame.subrange(0, frame.len() - 2)) == u16_le_at(
        frame,
        frame.len() - 2,
    )
}

/// `data` with bit `bit` of the byte at `index` inverted.
pub open spec fn flip_bit(data: Seq<u8>, index: int, bit: u8) -> Seq<u8>
    recommends
        0 <= index < data.len(),
        bit < 8,
{
    data.update(index, data[index] ^ (1u8 << bit))
}

/// Two registers that agree after the same byte agreed before it.
proof fn lemma_crc_byte_keeps_registers_apart(a: u16, b: u16, byte: u8)
    by (bit_vector)
    ensures
        crc_byte(a, byte) == crc_byte(b, byte) ==> a == b,
{
}

/// From one register, two different bytes lead to two different registers.
proof fn lemma_crc_byte_keeps_bytes_apart(reg: u16, x: u8, y: u8)
    by (bit_vector)
    ensures
        crc_byte(reg, x) == crc_byte(reg, y) ==> x == y,
{
}

/// Inverting one bit of a byte changes the byte.
proof fn lemma_flipped_byte_differs(byte: u8, bit: u8)
    by (bit_vector)
    requires
        bit < 8,
    ensures
        byte ^ (1u8 << bit) != byte,
{
}

/// Two inputs of one length that differ in exactly one byte leave the
/// register in different states.
pub proof fn lemma_one_byte_changes_register(reg: u16, a: Seq<u8>, b: Seq<u8>, index: int)
    requires
        a.len() == b.len(),
        0 <= index < a.len(),
        a[index] != b[index],
        forall|j: int| 0 <= j < a.len() && j != index ==> a[j] == b[j],
    ensures
        crc_fold(reg, a) != crc_fold(reg, b),
    decreases a.len(),
{
    let last = a.len() - 1;
    if index == last {
        assert(a.drop_last() =~= b.drop_last());
        lemma_crc_byte_keeps_bytes_apart(crc_fold(reg, a.drop_last()), a.last(), b.last());
    } else {
        lemma_one_byte_changes_register(reg, a.drop_last(), b.drop_last(), index);
        lemma_crc_byte_keeps_registers_apart(
            crc_fold(reg, a.drop_last()),
            crc_fold(reg, b.drop_last()),
            a.last(),
        );
    }
}

/// Inverting any single bit of the bytes that a checksum covers changes the
/// checksum.
pub proof fn lemma_bit_flip_changes_checksum(data: Seq<u8>, index: int, bit: u8)
    requires
        0 <= index < data.len(),
        bit < 8,
    ensures
        crc16_modbus(flip_bit(data, index, bit)) != crc16_modbus(data),
{
    lemma_flipped_byte_differs(data[index], bit);
    lemma_one_byte_changes_register(0xFFFF, flip_bit(data, index, bit), data, index);
}

/// A frame that ends in its checksum no longer does so once any single bit
/// before the trailer is inverted.
pub proof fn lemma_bit_flip_breaks_trailer(frame: Seq<u8>, index: int, bit: u8)
    requires
        crc_trailer_ok(frame),
        0 <= index < frame.len() - 2,
        bit < 8,
    ensures
        !crc_trailer_ok(flip_bit(frame, index, bit)),
{
    let covered = frame.subrange(0, frame.len() - 2);
    let flipped = flip_bit(frame, index, bit);
    assert(flipped.subrange(0, flipped.len() - 2) =~= flip_bit(covered, index, bit));
    lemma_bit_flip_changes_checksum(covered, index, bit);
}

/// Calls `crc::Crc::<u16>::new(&crc::CRC_16_MODBUS)` and `checksum` on it.
///
/// Trusted: the result is taken to be CRC-16/MODBUS as `crc16_modbus` defines
/// it (width 16, polynomial 0x8005 reflected, initial value 0xFFFF, no final
/// exclusive or), which is the algorithm the catalogue entry names.
#[verifier::external_body]
pub(crate) fn modbus_checksum(bytes: &[u8]) -> (sum: u16)
    ensures
        sum == crc16_modbus(bytes@),
{
    crc::Crc::<u16>::new(&crc::CRC_16_MODBUS).checksum(bytes)
}

/// Tells whether `data` ends in the little-endian checksum of the bytes before
/// it. A buffer of fewer than two bytes has no trailer, and the answer is no.
pub fn check_adu_crc(data: &[u8]) -> (ok: bool)
    ensures
        ok == crc_trailer_ok(data@),
{
    let n: usize = data.len();
    if n < 2 {
        return false;
    }
    let sum: u16 = modbus_checksum(slice_subrange(data, 0, n - 2));
    sum == read_u16_le(data, n - 2)
}

} // verus!
