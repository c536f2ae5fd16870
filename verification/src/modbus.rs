//! The two standard Modbus RTU operations that the driver needs: reading
//! holding registers and writing one. The frames are built and the replies
//! are judged by the `rmodbus` crate; this file states what it does.
//!
//! A Modbus RTU frame is the unit address, a function byte, the body of the
//! function and the CRC-16/MODBUS of all of these, low byte first.

use crate::checksum::crc16_modbus;
use crate::checksum::crc_trailer_ok;
use crate::wire::u16_be;
use crate::wire::u16_be_at;
use crate::wire::u16_le;
use rmodbus::client::ModbusRequest;
use rmodbus::consts::ModbusFunction;
use rmodbus::guess_response_frame_len;
use rmodbus::ErrorKind;
use rmodbus::ModbusProto;
use vstd::prelude::*;

verus! {

/// The error type of `rmodbus`. Nothing is said of its values: every failure
/// of the crate is one failure to the driver.
#[verifier::external_type_specification]
#[verifier::external_body]
pub struct ExErrorKind(rmodbus::ErrorKind);

/// The register operation that a reply answers.
#[derive(Debug, PartialEq, Eq, Clone, Copy, Structural)]
pub enum RegisterAccess {
    /// Read holding registers, function `0x03`.
    ReadHoldings,
    /// Write a single holding register, function `0x06`.
    WriteHolding,
}

impl RegisterAccess {
    /// The Modbus function byte of the operation.
    pub open spec fn function_byte(self) -> u8 {
        match self {
            RegisterAccess::ReadHoldings => 0x03,
            RegisterAccess::WriteHolding => 0x06,
        }
    }
}

/// `body` closed by its checksum, low byte first.
pub open spec fn rtu_frame(body: Seq<u8>) -> Seq<u8> {
    body + u16_le(crc16_modbus(body))
}

/// The request that reads `count` holding registers from `reg` on.
pub open spec fn read_holdings_request(unit_id: u8, reg: u16, count: u16) -> Seq<u8> {
    rtu_frame(seq![unit_id, 0x03u8] + u16_be(reg) + u16_be(count))
}

/// The request that writes `value` to the holding register `reg`.
pub open spec fn write_holding_request(unit_id: u8, reg: u16, value: u16) -> Seq<u8> {
    rtu_frame(seq![unit_id, 0x06u8] + u16_be(reg) + u16_be(value))
}

/// The total length of a reply, guessed from its first three bytes, or `None`
/// where they open no reply. A reply to a read function is its byte count and
/// five bytes more; a reply to a write function has eight bytes; an exception
/// reply (function byte `0x80` and above) has five.
pub open spec fn reply_len_guess(header: Seq<u8>) -> Option<u8>
    recommends
        header.len() >= 3,
{
    let function = header[1];
    if function >= 0x80 {
        Some(5u8)
    } else if 1 <= function <= 4 {
        if header[2] <= 250 {
            Some((header[2] + 5) as u8)
        } else {
            None
        }
    } else if function == 5 || function == 6 || function == 15 || function == 16 {
        Some(8u8)
    } else {
        None
    }
}

/// True when `reply` is a sound reply from unit `unit_id` to the operation
/// `access`: at least five and at most 257 bytes, closed by the checksum of
/// the bytes before it, from the unit asked, for the function asked and, for
/// a read, with a byte count that leaves no data bytes unaccounted for.
pub open spec fn reply_accepted(unit_id: u8, access: RegisterAccess, reply: Seq<u8>) -> bool {
    &&& 5 <= reply.len() <= 257
    &&& crc_trailer_ok(reply)
    &&& reply[0] == unit_id
    &&& reply[1] == access.function_byte()
    &&& (access is ReadHoldings ==> reply[2] * 2 >= reply.len() - 5)
}

/// The number of registers taken from a read reply: as many as were asked
/// for, and no more than its data bytes hold in full.
pub open spec fn reply_register_count(reply: Seq<u8>, count: u16) -> int {
    let held = (reply.len() - 5) / 2;
    if count <= held {
        count as int
    } else {
        held
    }
}

/// The registers of a read reply: its data bytes, which follow the byte
/// count, taken two by two as big-endian words.
pub open spec fn reply_registers(reply: Seq<u8>, count: u16) -> Seq<u16>
    recommends
        reply.len() >= 6,
{
    Seq::new(reply_register_count(reply, count) as nat, |k: int| u16_be_at(reply, 3 + 2 * k))
}

/// Calls `ModbusRequest::generate_get_holdings` on a fresh RTU request for
/// unit `unit_id`.
///
/// Trusted: the call succeeds (a `Vec` takes every byte, and the frame has
/// eight), and the frame is the unit, function `0x03`, the register and the
/// count, big-endian, closed by their CRC-16/MODBUS, low byte first.
#[verifier::external_body]
pub(crate) fn modbus_generate_get_holdings(unit_id: u8, reg: u16, count: u16) -> (r: Result<
    Vec<u8>,
    ErrorKind,
>)
    ensures
        r is Ok,
        r matches Ok(frame) ==> frame@ == read_holdings_request(unit_id, reg, count),
{
    let mut mreq = ModbusRequest::new(unit_id, ModbusProto::Rtu);
    let mut frame: Vec<u8> = Vec::new();
    match mreq.generate_get_holdings(reg, count, &mut frame) {
        Ok(()) => Ok(frame),
        Err(e) => Err(e),
    }
}

/// Calls `ModbusRequest::generate_set_holding` on a fresh RTU request for
/// unit `unit_id`.
///
/// Trusted: the call succeeds (a `Vec` takes every byte, and the frame has
/// eight), and the frame is the unit, function `0x06`, the register and the
/// value, big-endian, closed by their CRC-16/MODBUS, low byte first.
#[verifier::external_body]
pub(crate) fn modbus_generate_set_holding(unit_id: u8, reg: u16, value: u16) -> (r: Result<
    Vec<u8>,
    ErrorKind,
>)
    ensures
        r is Ok,
        r matches Ok(frame) ==> frame@ == write_holding_request(unit_id, reg, value),
{
    let mut mreq = ModbusRequest::new(unit_id, ModbusProto::Rtu);
    let mut frame: Vec<u8> = Vec::new();
    match mreq.generate_set_holding(reg, value, &mut frame) {
        Ok(()) => Ok(frame),
        Err(e) => Err(e),
    }
}

/// Calls `rmodbus::guess_response_frame_len` for the RTU protocol.
///
/// Trusted: with at least three bytes in hand (it reads the second and the
/// third, and panics on fewer), the call returns the length that
/// `reply_len_guess` gives, and fails exactly where that gives none.
#[verifier::external_body]
pub(crate) fn modbus_guess_response_frame_len(header: &[u8]) -> (r: Result<u8, ErrorKind>)
    requires
        header@.len() >= 3,
    ensures
        match r {
            Ok(len) => reply_len_guess(header@) == Some(len),
            Err(_) => reply_len_guess(header@) is None,
        },
{
    guess_response_frame_len(header, ModbusProto::Rtu)
}

/// Calls `ModbusRequest::parse_ok` on the RTU request of unit `unit_id` for
/// the operation `access`.
///
/// Trusted: the call succeeds exactly on the replies that `reply_accepted`
/// describes.
#[verifier::external_body]
pub(crate) fn modbus_parse_ok(unit_id: u8, access: RegisterAccess, reply: &[u8]) -> (r: Result<
    (),
    ErrorKind,
>)
    ensures
        r is Ok <==> reply_accepted(unit_id, access, reply@),
{
    let mut mreq = ModbusRequest::new(unit_id, ModbusProto::Rtu);
    mreq.func = match access {
        RegisterAccess::ReadHoldings => ModbusFunction::GetHoldings,
        RegisterAccess::WriteHolding => ModbusFunction::SetHolding,
    };
    mreq.parse_ok(reply)
}

/// Calls `ModbusRequest::parse_u16` on the RTU request of unit `unit_id` that
/// read `count` holding registers.
///
/// Trusted: the call succeeds exactly on the replies that `reply_accepted`
/// describes for a read, and then returns the registers that
/// `reply_registers` gives. A sound reply of five bytes has no data bytes, on
/// which the call panics: such a length is left out.
#[verifier::external_body]
pub(crate) fn modbus_parse_u16(unit_id: u8, count: u16, reply: &[u8]) -> (r: Result<
    Vec<u16>,
    ErrorKind,
>)
    requires
        reply@.len() != 5,
    ensures
        r is Ok <==> reply_accepted(unit_id, RegisterAccess::ReadHoldings, reply@),
        r matches Ok(words) ==> words@ == reply_registers(reply@, count),
{
    let mut mreq = ModbusRequest::new(unit_id, ModbusProto::Rtu);
    mreq.func = ModbusFunction::GetHoldings;
    mreq.count = count;
    let mut words: Vec<u16> = Vec::new();
    match mreq.parse_u16(reply, &mut words) {
        Ok(()) => Ok(words),
        Err(e) => Err(e),
    }
}

} // verus!
