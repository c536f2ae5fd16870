//! The decisions of a motor session.
//!
//! A session speaks to one motor, one request at a time: it sends a request,
//! reads the reply, and only then sends the next. This file holds everything
//! such a round trip decides: which bytes to send, how many to read back, and
//! what the reply means. It does no input or output: the caller writes the
//! bytes, reads as many as it is told to, and hands them over.

use crate::checksum::crc_trailer_ok;
use crate::modbus::modbus_generate_get_holdings;
use crate::modbus::modbus_generate_set_holding;
use crate::modbus::modbus_guess_response_frame_len;
use crate::modbus::modbus_parse_ok;
use crate::modbus::modbus_parse_u16;
use crate::modbus::read_holdings_request;
use crate::modbus::reply_accepted;
use crate::modbus::reply_len_guess;
use crate::modbus::reply_registers;
use crate::modbus::write_holding_request;
use crate::modbus::RegisterAccess;
use crate::pdu_payload::FrameError;
use crate::pdu_payload::ManageHighSpeedRequestPDUPayload;
use crate::pdu_payload::ManageHighSpeedRequestSubFunctionCode;
use crate::pdu_payload::MotorCommandRequestPDUPayload;
use crate::pdu_payload::OrcaHighSpeedRequestADU;
use crate::pdu_payload::OrcaHighSpeedRequestPDU;
use crate::pdu_payload::OrcaHighSpeedResponseADU;
use crate::pdu_payload::OrcaHighSpeedResponsePDU;
use crate::register_map::CtrlReg3;
use crate::register_map::ModeOfOperation;
use crate::register_map::OrcaModeOfOperation;
use vstd::prelude::*;

verus! {

/// Why a round trip with the motor failed.
#[derive(Debug, PartialEq, Eq, Clone, Copy, Structural)]
pub enum SessionError {
    /// The reply to a high-speed request is no frame, or its checksum is
    /// wrong.
    Frame(FrameError),
    /// The reply comes from another address than the request went to.
    AddressMismatch,
    /// The reply to a standard Modbus request is broken, answers another
    /// request, reports a Modbus exception, or holds no register where one
    /// was asked for.
    ProtocolError,
    /// The mode register holds a value that names no mode.
    UnknownMode,
    /// The reply has another shape than the request calls for.
    UnexpectedVariant,
}

/// What to do next while reading the mode.
#[derive(Debug, PartialEq, Eq, Clone, Copy)]
pub enum ReadModeStep {
    /// Read exactly this many more bytes and add them to the reply.
    Read(usize),
    /// The round trip is over, with this outcome.
    Done(Result<OrcaModeOfOperation, SessionError>),
}

/// The number of bytes that open a standard Modbus reply and tell its length.
pub const REPLY_HEADER_LEN: usize = 3;

/// The length of the reply to a request that writes one register.
pub const WRITE_REPLY_LEN: usize = 8;

/// The byte of the mode register that names the mode: the low byte of the
/// first register of the reply.
pub open spec fn mode_byte(reply: Seq<u8>) -> u8
    recommends
        reply.len() >= 7,
{
    (reply_registers(reply, 1)[0] % 0x100) as u8
}

/// What a complete reply to the request for the mode means. The reply must
/// be a sound reply of the unit to a read and hold a register, which takes
/// seven bytes; the low byte of its first register must name a mode.
pub open spec fn read_mode_result(unit_id: u8, reply: Seq<u8>) -> Result<
    OrcaModeOfOperation,
    SessionError,
> {
    if !reply_accepted(unit_id, RegisterAccess::ReadHoldings, reply) || reply.len() < 7 {
        Err(SessionError::ProtocolError)
    } else {
        match OrcaModeOfOperation::of_byte(mode_byte(reply)) {
            Some(mode) => Ok(mode),
            None => Err(SessionError::UnknownMode),
        }
    }
}

/// What to do with `reply`, the bytes read so far in answer to the request
/// for the mode. The first three bytes are read first; they tell how long the
/// reply is, and where that is more than six bytes the rest is read; then the
/// reply is judged.
pub open spec fn read_mode_step(unit_id: u8, reply: Seq<u8>) -> ReadModeStep {
    if reply.len() < 3 {
        ReadModeStep::Read((3 - reply.len()) as usize)
    } else if reply.len() == 3 {
        match reply_len_guess(reply) {
            None => ReadModeStep::Done(Err(SessionError::ProtocolError)),
            Some(total) => if total > 6 {
                ReadModeStep::Read((total - 3) as usize)
            } else {
                ReadModeStep::Done(read_mode_result(unit_id, reply))
            },
        }
    } else {
        ReadModeStep::Done(read_mode_result(unit_id, reply))
    }
}

/// What the reply to a high-speed request means: the PDU it carries, where
/// it is a frame from the address the request went to.
pub open spec fn high_speed_result(request: OrcaHighSpeedRequestADU, reply: Seq<u8>) -> Result<
    OrcaHighSpeedResponsePDU,
    SessionError,
> {
    match OrcaHighSpeedResponseADU::parse(reply) {
        Err(e) => Err(SessionError::Frame(e)),
        Ok(response) => if response.slave_address != request.slave_address {
            Err(SessionError::AddressMismatch)
        } else {
            Ok(response.pdu)
        },
    }
}

/// The session with one motor: the address it answers to.
#[derive(Debug, PartialEq, Eq, Clone, Copy, Structural)]
pub struct MotorSession {
    pub unit_id: u8,
}

impl MotorSession {
    /// A session with the motor at address 1.
    pub fn new() -> (session: MotorSession)
        ensures
            session.unit_id == 1,
    {
        MotorSession { unit_id: 1 }
    }

    /// A session with the motor at address `slave`.
    pub fn new_with_slave(slave: u8) -> (session: MotorSession)
        ensures
            session.unit_id == slave,
    {
        MotorSession { unit_id: slave }
    }

    /// The request that reads the mode register.
    pub fn read_mode_request(&self) -> (r: Result<Vec<u8>, SessionError>)
        ensures
            r is Ok,
            r.unwrap()@ == read_holdings_request(self.unit_id, ModeOfOperation::ADDRESS, 1),
    {
        match modbus_generate_get_holdings(self.unit_id, ModeOfOperation::ADDRESS, 1) {
            Ok(frame) => Ok(frame),
            Err(_) => Err(SessionError::ProtocolError),
        }
    }

    /// Judges a complete reply to the request for the mode: it must be a
    /// sound reply of this motor to a read, and the low byte of its first
    /// register must name a mode.
    pub fn read_mode_response(&self, reply: &[u8]) -> (r: Result<OrcaModeOfOperation, SessionError>)
        ensures
            r == read_mode_result(self.unit_id, reply@),
    {
        if modbus_parse_ok(self.unit_id, RegisterAccess::ReadHoldings, reply).is_err() {
            return Err(SessionError::ProtocolError);
        }
        if reply.len() < 7 {
            return Err(SessionError::ProtocolError);
        }
        match modbus_parse_u16(self.unit_id, 1, reply) {
            Err(_) => Err(SessionError::ProtocolError),
            Ok(words) => {
                let low: u8 = (words[0] % 0x100) as u8;
                match OrcaModeOfOperation::try_from(low) {
                    Ok(mode) => Ok(mode),
                    Err(_) => Err(SessionError::UnknownMode),
                }
            },
        }
    }

    /// Tells what to do with `reply`, the bytes read so far in answer to the
    /// request for the mode: read more, or stop with an outcome.
    pub fn read_mode_next(&self, reply: &[u8]) -> (step: ReadModeStep)
        ensures
            step == read_mode_step(self.unit_id, reply@),
    {
        let have: usize = reply.len();
        if have < REPLY_HEADER_LEN {
            ReadModeStep::Read(REPLY_HEADER_LEN - have)
        } else if have == REPLY_HEADER_LEN {
            match modbus_guess_response_frame_len(reply) {
                Err(_) => ReadModeStep::Done(Err(SessionError::ProtocolError)),
                Ok(total) => if total > 6 {
                    ReadModeStep::Read((total - 3) as usize)
                } else {
                    ReadModeStep::Done(self.read_mode_response(reply))
                },
            }
        } else {
            ReadModeStep::Done(self.read_mode_response(reply))
        }
    }

    /// The request that asks the motor to enter `mode`.
    pub fn set_mode_request(&self, mode: OrcaModeOfOperation) -> (r: Result<Vec<u8>, SessionError>)
        ensures
            r is Ok,
            r.unwrap()@ == write_holding_request(
                self.unit_id,
                CtrlReg3::ADDRESS,
                mode.byte() as u16,
            ),
    {
        let value: u16 = u8::from(mode) as u16;
        match modbus_generate_set_holding(self.unit_id, CtrlReg3::ADDRESS, value) {
            Ok(frame) => Ok(frame),
            Err(_) => Err(SessionError::ProtocolError),
        }
    }

    /// Judges the eight bytes read in answer to the request to enter a mode.
    pub fn set_mode_response(&self, reply: &[u8]) -> (r: Result<(), SessionError>)
        ensures
            r == if reply_accepted(self.unit_id, RegisterAccess::WriteHolding, reply@) {
                Ok::<(), SessionError>(())
            } else {
                Err::<(), SessionError>(SessionError::ProtocolError)
            },
    {
        match modbus_parse_ok(self.unit_id, RegisterAccess::WriteHolding, reply) {
            Ok(()) => Ok(()),
            Err(_) => Err(SessionError::ProtocolError),
        }
    }

    /// The request that switches the high-speed stream on.
    pub fn enable_high_speed_request(&self, baud_rate: u32, delay_us: u16) -> (adu:
        OrcaHighSpeedRequestADU)
        ensures
            adu.slave_address == self.unit_id,
            adu.pdu == OrcaHighSpeedRequestPDU::Manage(
                ManageHighSpeedRequestPDUPayload {
                    sub_function_code: ManageHighSpeedRequestSubFunctionCode::Enable,
                    baud_rate,
                    delay_us,
                },
            ),
            adu.well_formed(),
    {
        OrcaHighSpeedRequestADU::new(
            self.unit_id,
            OrcaHighSpeedRequestPDU::Manage(
                ManageHighSpeedRequestPDUPayload {
                    sub_function_code: ManageHighSpeedRequestSubFunctionCode::Enable,
                    baud_rate,
                    delay_us,
                },
            ),
        )
    }

    /// The request that switches the high-speed stream off.
    pub fn disable_high_speed_request(&self) -> (adu: OrcaHighSpeedRequestADU)
        ensures
            adu.slave_address == self.unit_id,
            adu.pdu == OrcaHighSpeedRequestPDU::Manage(
                ManageHighSpeedRequestPDUPayload {
                    sub_function_code: ManageHighSpeedRequestSubFunctionCode::Disable,
                    baud_rate: 0,
                    delay_us: 0,
                },
            ),
            adu.well_formed(),
    {
        OrcaHighSpeedRequestADU::new(
            self.unit_id,
            OrcaHighSpeedRequestPDU::Manage(ManageHighSpeedRequestPDUPayload::default()),
        )
    }

    /// The request that streams the target position `position_um`.
    pub fn position_high_speed_request(&self, position_um: i32) -> (adu: OrcaHighSpeedRequestADU)
        ensures
            adu.slave_address == self.unit_id,
            adu.pdu == OrcaHighSpeedRequestPDU::Command(
                MotorCommandRequestPDUPayload::PositionControlStream { position_um },
            ),
            adu.well_formed(),
    {
        OrcaHighSpeedRequestADU::new(
            self.unit_id,
            OrcaHighSpeedRequestPDU::Command(
                MotorCommandRequestPDUPayload::PositionControlStream { position_um },
            ),
        )
    }

    /// Tells whether `response` has the shape that the request `adu` calls
    /// for, which is the shape with the same function code.
    pub fn expect_same_shape(
        adu: &OrcaHighSpeedRequestADU,
        response: &OrcaHighSpeedResponsePDU,
    ) -> (r: Result<(), SessionError>)
        ensures
            r == if response.function_code() == adu.pdu.function_code() {
                Ok::<(), SessionError>(())
            } else {
                Err::<(), SessionError>(SessionError::UnexpectedVariant)
            },
    {
        if response.code() == adu.pdu.code() {
            Ok(())
        } else {
            Err(SessionError::UnexpectedVariant)
        }
    }

    /// Judges the bytes read in answer to the high-speed request `adu`: they
    /// must be a frame with a sound checksum, from the address the request
    /// went to. The PDU is handed out whatever its shape.
    pub fn high_speed_response(adu: &OrcaHighSpeedRequestADU, reply: &[u8]) -> (r: Result<
        OrcaHighSpeedResponsePDU,
        SessionError,
    >)
        ensures
            r == high_speed_result(*adu, reply@),
    {
        match OrcaHighSpeedResponseADU::from_bytes(reply) {
            Err(e) => Err(SessionError::Frame(e)),
            Ok(response) => if adu.slave_address != response.slave_address {
                Err(SessionError::AddressMismatch)
            } else {
                Ok(response.pdu)
            },
        }
    }
}

/// The reply to a request either is a frame from the address the request went
/// to, or the round trip fails: no PDU from another address is handed out.
pub proof fn lemma_handed_out_comes_from_address(request: OrcaHighSpeedRequestADU, reply: Seq<u8>)
    requires
        high_speed_result(request, reply) is Ok,
    ensures
        reply.len() >= 3,
        reply[0] == request.slave_address,
        crc_trailer_ok(reply),
{
}

/// A response frame built for another address than the request went to is
/// refused with `AddressMismatch`.
pub proof fn lemma_address_mismatch_detected(
    request: OrcaHighSpeedRequestADU,
    response: OrcaHighSpeedResponseADU,
)
    requires
        response.well_formed(),
        response.slave_address != request.slave_address,
    ensures
        high_speed_result(request, response.wire()) == Err::<
            OrcaHighSpeedResponsePDU,
            SessionError,
        >(SessionError::AddressMismatch),
{
    response.lemma_round_trip();
}

/// A well-formed response frame from the address the request went to is
/// accepted, and its PDU is handed out as it is read back.
pub proof fn lemma_matching_response_accepted(
    request: OrcaHighSpeedRequestADU,
    response: OrcaHighSpeedResponseADU,
)
    requires
        response.well_formed(),
        response.slave_address == request.slave_address,
    ensures
        high_speed_result(request, response.wire()) == Ok::<
            OrcaHighSpeedResponsePDU,
            SessionError,
        >(response.pdu.normalized()),
{
    response.lemma_round_trip();
}

/// Reading the mode takes at most two reads after the request: three bytes
/// first, and where the step after them asks for more, the reply is complete
/// once they are there.
pub proof fn lemma_read_mode_ends(unit_id: u8, header: Seq<u8>, rest: Seq<u8>)
    requires
        header.len() == 3,
        read_mode_step(unit_id, header) matches ReadModeStep::Read(n) && rest.len() == n,
    ensures
        read_mode_step(unit_id, header + rest) is Done,
        (header + rest).len() >= 7,
{
}

} // verus!
