//! The high-speed frame codec.
//!
//! A frame (ADU) is one address byte, a PDU and a little-endian CRC-16/MODBUS
//! over everything before it. A PDU is one function-code byte and the fields
//! of its payload, each big-endian at its natural width. The wire carries no
//! length: the function code of the request fixes the size of the reply.
//!
//! Every type has a spec function `wire` that gives its bytes and a spec
//! function `parse` that reads it from the start of a byte sequence; the
//! executable `write` and `from_bytes` compute exactly these.

use crate::bits::flag_at;
use crate::bits::flag_mask;
use crate::bits::has_flag;
use crate::bits::mask_if;
use crate::checksum::check_adu_crc;
use crate::checksum::crc16_modbus;
use crate::checksum::crc_trailer_ok;
use crate::checksum::flip_bit;
use crate::checksum::lemma_bit_flip_breaks_trailer;
use crate::checksum::modbus_checksum;
use crate::register_map::OrcaModeOfOperation;
use crate::wire::i32_be;
use crate::wire::i32_be_at;
use crate::wire::lemma_i32_be_round_trip;
use crate::wire::lemma_u16_be_round_trip;
use crate::wire::lemma_u16_le_round_trip;
use crate::wire::lemma_u32_be_round_trip;
use crate::wire::push_i32_be;
use crate::wire::push_u16_be;
use crate::wire::push_u16_le;
use crate::wire::push_u32_be;
use crate::wire::read_i32_be;
use crate::wire::read_u16_be;
use crate::wire::read_u16_le;
use crate::wire::read_u32_be;
use crate::wire::same_prefix;
use crate::wire::u16_be;
use crate::wire::u16_be_at;
use crate::wire::u16_le;
use crate::wire::u16_le_at;
use crate::wire::u32_be;
use crate::wire::u32_be_at;
use vstd::prelude::*;
use vstd::slice::slice_subrange;
use vstd::std_specs::convert::FromSpecImpl;
use vstd::std_specs::convert::TryFromSpecImpl;

verus! {

/// Why a byte sequence is not a frame, or not a part of one.
#[derive(Debug, PartialEq, Eq, Clone, Copy, Structural)]
pub enum FrameError {
    /// The bytes end before the item does.
    Truncated,
    /// The function-code byte is none of the four known codes.
    UnknownFunctionCode,
    /// The sub-function code of a Manage payload is neither Enable nor
    /// Disable.
    UnknownSubFunctionCode,
    /// The trailing checksum is not the checksum of the bytes before it.
    ChecksumMismatch,
}

/// The byte that opens a PDU and selects its shape.
#[derive(Debug, PartialEq, Eq, Clone, Copy, Structural)]
pub enum FunctionCode {
    Manage,
    Command,
    Read,
    Write,
}

impl FunctionCode {
    /// The code as it stands on the wire.
    pub open spec fn byte(self) -> u8 {
        match self {
            FunctionCode::Manage => 0x41,
            FunctionCode::Command => 0x64,
            FunctionCode::Read => 0x68,
            FunctionCode::Write => 0x69,
        }
    }

    /// The function code that a byte names, if it names one.
    pub open spec fn of_byte(value: u8) -> Option<FunctionCode> {
        if value == 0x41 {
            Some(FunctionCode::Manage)
        } else if value == 0x64 {
            Some(FunctionCode::Command)
        } else if value == 0x68 {
            Some(FunctionCode::Read)
        } else if value == 0x69 {
            Some(FunctionCode::Write)
        } else {
            None
        }
    }

    /// The length of a request PDU with this code, the code byte included.
    pub open spec fn request_len(self) -> nat {
        match self {
            FunctionCode::Manage => 9,
            FunctionCode::Command => 6,
            FunctionCode::Read => 4,
            FunctionCode::Write => 8,
        }
    }

    /// The length of a response PDU with this code, the code byte included.
    pub open spec fn response_len(self) -> nat {
        match self {
            FunctionCode::Manage => 9,
            FunctionCode::Command => 16,
            FunctionCode::Read => 21,
            FunctionCode::Write => 17,
        }
    }

    /// The length of a request PDU with this code, the code byte included.
    pub fn request_pdu_len(self) -> (n: usize)
        ensures
            n == self.request_len(),
    {
        match self {
            FunctionCode::Manage => 9,
            FunctionCode::Command => 6,
            FunctionCode::Read => 4,
            FunctionCode::Write => 8,
        }
    }

    /// The length of a response PDU with this code, the code byte included.
    pub fn response_pdu_len(self) -> (n: usize)
        ensures
            n == self.response_len(),
    {
        match self {
            FunctionCode::Manage => 9,
            FunctionCode::Command => 16,
            FunctionCode::Read => 21,
            FunctionCode::Write => 17,
        }
    }

    /// Every function code is found again from its byte.
    pub proof fn lemma_byte_round_trip(self)
        ensures
            FunctionCode::of_byte(self.byte()) == Some(self),
    {
    }
}

impl TryFrom<u8> for FunctionCode {
    type Error = FrameError;

    fn try_from(value: u8) -> (r: Result<FunctionCode, FrameError>) {
        if value == 0x41 {
            Ok(FunctionCode::Manage)
        } else if value == 0x64 {
            Ok(FunctionCode::Command)
        } else if value == 0x68 {
            Ok(FunctionCode::Read)
        } else if value == 0x69 {
            Ok(FunctionCode::Write)
        } else {
            Err(FrameError::UnknownFunctionCode)
        }
    }
}

impl TryFromSpecImpl<u8> for FunctionCode {
    open spec fn obeys_try_from_spec() -> bool {
        true
    }

    open spec fn try_from_spec(value: u8) -> Result<FunctionCode, FrameError> {
        match FunctionCode::of_byte(value) {
            Some(code) => Ok(code),
            None => Err(FrameError::UnknownFunctionCode),
        }
    }
}

impl From<FunctionCode> for u8 {
    fn from(code: FunctionCode) -> (value: u8) {
        match code {
            FunctionCode::Manage => 0x41,
            FunctionCode::Command => 0x64,
            FunctionCode::Read => 0x68,
            FunctionCode::Write => 0x69,
        }
    }
}

impl FromSpecImpl<FunctionCode> for u8 {
    open spec fn obeys_from_spec() -> bool {
        true
    }

    open spec fn from_spec(code: FunctionCode) -> u8 {
        code.byte()
    }
}

/// What a Manage PDU asks for, and what its reply reports.
#[derive(Debug, PartialEq, Eq, Clone, Copy, Structural)]
pub enum ManageHighSpeedRequestSubFunctionCode {
    Enable,
    Disable,
}

impl ManageHighSpeedRequestSubFunctionCode {
    /// The code as a 16-bit value.
    pub open spec fn value(self) -> u16 {
        match self {
            ManageHighSpeedRequestSubFunctionCode::Enable => 0xFF00,
            ManageHighSpeedRequestSubFunctionCode::Disable => 0x0000,
        }
    }

    /// The sub-function code that a 16-bit value names, if it names one.
    pub open spec fn of_value(value: u16) -> Option<ManageHighSpeedRequestSubFunctionCode> {
        if value == 0xFF00 {
            Some(ManageHighSpeedRequestSubFunctionCode::Enable)
        } else if value == 0x0000 {
            Some(ManageHighSpeedRequestSubFunctionCode::Disable)
        } else {
            None
        }
    }
}

impl Default for ManageHighSpeedRequestSubFunctionCode {
    fn default() -> (code: ManageHighSpeedRequestSubFunctionCode)
        ensures
            code == ManageHighSpeedRequestSubFunctionCode::Disable,
    {
        ManageHighSpeedRequestSubFunctionCode::Disable
    }
}

impl TryFrom<u16> for ManageHighSpeedRequestSubFunctionCode {
    type Error = FrameError;

    fn try_from(value: u16) -> (r: Result<ManageHighSpeedRequestSubFunctionCode, FrameError>) {
        if value == 0xFF00 {
            Ok(ManageHighSpeedRequestSubFunctionCode::Enable)
        } else if value == 0x0000 {
            Ok(ManageHighSpeedRequestSubFunctionCode::Disable)
        } else {
            Err(FrameError::UnknownSubFunctionCode)
        }
    }
}

impl TryFromSpecImpl<u16> for ManageHighSpeedRequestSubFunctionCode {
    open spec fn obeys_try_from_spec() -> bool {
        true
    }

    open spec fn try_from_spec(value: u16) -> Result<
        ManageHighSpeedRequestSubFunctionCode,
        FrameError,
    > {
        match ManageHighSpeedRequestSubFunctionCode::of_value(value) {
            Some(code) => Ok(code),
            None => Err(FrameError::UnknownSubFunctionCode),
        }
    }
}

impl From<ManageHighSpeedRequestSubFunctionCode> for u16 {
    fn from(code: ManageHighSpeedRequestSubFunctionCode) -> (value: u16) {
        match code {
            ManageHighSpeedRequestSubFunctionCode::Enable => 0xFF00,
            ManageHighSpeedRequestSubFunctionCode::Disable => 0x0000,
        }
    }
}

impl FromSpecImpl<ManageHighSpeedRequestSubFunctionCode> for u16 {
    open spec fn obeys_from_spec() -> bool {
        true
    }

    open spec fn from_spec(code: ManageHighSpeedRequestSubFunctionCode) -> u16 {
        code.value()
    }
}

/// The payload of a Manage request: switch the high-speed stream on or off.
#[derive(Debug, PartialEq, Eq, Clone, Copy, Structural)]
pub struct ManageHighSpeedRequestPDUPayload {
    pub sub_function_code: ManageHighSpeedRequestSubFunctionCode,
    pub baud_rate: u32,
    pub delay_us: u16,
}

impl ManageHighSpeedRequestPDUPayload {
    /// The eight bytes of the payload.
    pub open spec fn wire(self) -> Seq<u8> {
        u16_be(self.sub_function_code.value()) + u32_be(self.baud_rate) + u16_be(self.delay_us)
    }

    /// The payload that stands at the start of `bytes`.
    pub open spec fn parse(bytes: Seq<u8>) -> Result<ManageHighSpeedRequestPDUPayload, FrameError> {
        if bytes.len() < 8 {
            Err(FrameError::Truncated)
        } else {
            match ManageHighSpeedRequestSubFunctionCode::of_value(u16_be_at(bytes, 0)) {
                None => Err(FrameError::UnknownSubFunctionCode),
                Some(code) => Ok(
                    ManageHighSpeedRequestPDUPayload {
                        sub_function_code: code,
                        baud_rate: u32_be_at(bytes, 2),
                        delay_us: u16_be_at(bytes, 6),
                    },
                ),
            }
        }
    }

    /// Reads the payload from the start of `bytes`; bytes after it are left
    /// alone.
    pub fn from_bytes(bytes: &[u8]) -> (r: Result<ManageHighSpeedRequestPDUPayload, FrameError>)
        ensures
            r == ManageHighSpeedRequestPDUPayload::parse(bytes@),
    {
        if bytes.len() < 8 {
            return Err(FrameError::Truncated);
        }
        match ManageHighSpeedRequestSubFunctionCode::try_from(read_u16_be(bytes, 0)) {
            Err(e) => Err(e),
            Ok(code) => Ok(
                ManageHighSpeedRequestPDUPayload {
                    sub_function_code: code,
                    baud_rate: read_u32_be(bytes, 2),
                    delay_us: read_u16_be(bytes, 6),
                },
            ),
        }
    }

    /// Appends the payload to `out`.
    pub fn write(&self, out: &mut Vec<u8>)
        ensures
            final(out)@ == old(out)@ + self.wire(),
    {
        push_u16_be(out, u16::from(self.sub_function_code));
        push_u32_be(out, self.baud_rate);
        push_u16_be(out, self.delay_us);
        assert(out@ =~= old(out)@ + self.wire());
    }

    /// Only the first eight bytes are read: two buffers that agree on them
    /// hold the same payload.
    pub proof fn lemma_parse_reads_prefix(a: Seq<u8>, b: Seq<u8>)
        requires
            same_prefix(a, b, 8),
        ensures
            ManageHighSpeedRequestPDUPayload::parse(a) == ManageHighSpeedRequestPDUPayload::parse(
                b,
            ),
    {
    }

    /// What is written is read back unchanged.
    pub proof fn lemma_round_trip(self)
        ensures
            self.wire().len() == 8,
            ManageHighSpeedRequestPDUPayload::parse(self.wire()) == Ok::<
                ManageHighSpeedRequestPDUPayload,
                FrameError,
            >(self),
    {
        let w = self.wire();
        assert(w.subrange(0, 2) =~= u16_be(self.sub_function_code.value()));
        assert(w.subrange(2, 6) =~= u32_be(self.baud_rate));
        assert(w.subrange(6, 8) =~= u16_be(self.delay_us));
        lemma_u16_be_round_trip(self.sub_function_code.value(), w, 0);
        lemma_u32_be_round_trip(self.baud_rate, w, 2);
        lemma_u16_be_round_trip(self.delay_us, w, 6);
    }
}

impl Default for ManageHighSpeedRequestPDUPayload {
    fn default() -> (payload: ManageHighSpeedRequestPDUPayload)
        ensures
            payload == (ManageHighSpeedRequestPDUPayload {
                sub_function_code: ManageHighSpeedRequestSubFunctionCode::Disable,
                baud_rate: 0,
                delay_us: 0,
            }),
    {
        ManageHighSpeedRequestPDUPayload {
            sub_function_code: ManageHighSpeedRequestSubFunctionCode::Disable,
            baud_rate: 0,
            delay_us: 0,
        }
    }
}

/// The payload of a Manage response: the state the stream is now in.
#[derive(Debug, PartialEq, Eq, Clone, Copy, Structural)]
pub struct ManageHighSpeedResponsePDUPayload {
    pub state_command: ManageHighSpeedRequestSubFunctionCode,
    pub baud_rate: u32,
    pub delay_us: u16,
}

impl ManageHighSpeedResponsePDUPayload {
    /// The eight bytes of the payload.
    pub open spec fn wire(self) -> Seq<u8> {
        u16_be(self.state_command.value()) + u32_be(self.baud_rate) + u16_be(self.delay_us)
    }

    /// The payload that stands at the start of `bytes`.
    pub open spec fn parse(bytes: Seq<u8>) -> Result<
        ManageHighSpeedResponsePDUPayload,
        FrameError,
    > {
        if bytes.len() < 8 {
            Err(FrameError::Truncated)
        } else {
            match ManageHighSpeedRequestSubFunctionCode::of_value(u16_be_at(bytes, 0)) {
                None => Err(FrameError::UnknownSubFunctionCode),
                Some(code) => Ok(
                    ManageHighSpeedResponsePDUPayload {
                        state_command: code,
                        baud_rate: u32_be_at(bytes, 2),
                        delay_us: u16_be_at(bytes, 6),
                    },
                ),
            }
        }
    }

    /// Reads the payload from the start of `bytes`; bytes after it are left
    /// alone.
    pub fn from_bytes(bytes: &[u8]) -> (r: Result<ManageHighSpeedResponsePDUPayload, FrameError>)
        ensures
            r == ManageHighSpeedResponsePDUPayload::parse(bytes@),
    {
        if bytes.len() < 8 {
            return Err(FrameError::Truncated);
        }
        match ManageHighSpeedRequestSubFunctionCode::try_from(read_u16_be(bytes, 0)) {
            Err(e) => Err(e),
            Ok(code) => Ok(
                ManageHighSpeedResponsePDUPayload {
                    state_command: code,
                    baud_rate: read_u32_be(bytes, 2),
                    delay_us: read_u16_be(bytes, 6),
                },
            ),
        }
    }

    /// Appends the payload to `out`.
    pub fn write(&self, out: &mut Vec<u8>)
        ensures
            final(out)@ == old(out)@ + self.wire(),
    {
        push_u16_be(out, u16::from(self.state_command));
        push_u32_be(out, self.baud_rate);
        push_u16_be(out, self.delay_us);
        assert(out@ =~= old(out)@ + self.wire());
    }

    /// Only the first eight bytes are read: two buffers that agree on them
    /// hold the same payload.
    pub proof fn lemma_parse_reads_prefix(a: Seq<u8>, b: Seq<u8>)
        requires
            same_prefix(a, b, 8),
        ensures
            ManageHighSpeedResponsePDUPayload::parse(a) == ManageHighSpeedResponsePDUPayload::parse(
                b,
            ),
    {
    }

    /// What is written is read back unchanged.
    pub proof fn lemma_round_trip(self)
        ensures
            self.wire().len() == 8,
            ManageHighSpeedResponsePDUPayload::parse(self.wire()) == Ok::<
                ManageHighSpeedResponsePDUPayload,
                FrameError,
            >(self),
    {
        let w = self.wire();
        assert(w.subrange(0, 2) =~= u16_be(self.state_command.value()));
        assert(w.subrange(2, 6) =~= u32_be(self.baud_rate));
        assert(w.subrange(6, 8) =~= u16_be(self.delay_us));
        lemma_u16_be_round_trip(self.state_command.value(), w, 0);
        lemma_u32_be_round_trip(self.baud_rate, w, 2);
        lemma_u16_be_round_trip(self.delay_us, w, 6);
    }
}

/// The payload of a Command request: one sub-code byte and four bytes of
/// argument. `SleepDataStream` has no sub-code of its own: it fills the same
/// five bytes with zeros, and every first byte that is no sub-code reads as
/// `SleepDataStream`.
#[derive(Debug, PartialEq, Eq, Clone, Copy, Structural)]
pub enum MotorCommandRequestPDUPayload {
    ForceControlStream { force_mn: i32 },
    PositionControlStream { position_um: i32 },
    KinematicDataStream {  },
    HapticDataStream { haptic_status_register: u32 },
    SleepDataStream {  },
}

impl MotorCommandRequestPDUPayload {
    /// The five bytes of the payload.
    pub open spec fn wire(self) -> Seq<u8> {
        match self {
            MotorCommandRequestPDUPayload::ForceControlStream { force_mn } => seq![0x1Cu8] + i32_be(
                force_mn,
            ),
            MotorCommandRequestPDUPayload::PositionControlStream { position_um } => seq![0x1Eu8]
                + i32_be(position_um),
            MotorCommandRequestPDUPayload::KinematicDataStream {  } => seq![0x20u8, 0, 0, 0, 0],
            MotorCommandRequestPDUPayload::HapticDataStream { haptic_status_register } => seq![
                0x22u8,
            ] + u32_be(haptic_status_register),
            MotorCommandRequestPDUPayload::SleepDataStream {  } => seq![0u8, 0, 0, 0, 0],
        }
    }

    /// The payload that stands at the start of `bytes`.
    pub open spec fn parse(bytes: Seq<u8>) -> Result<MotorCommandRequestPDUPayload, FrameError> {
        if bytes.len() < 5 {
            Err(FrameError::Truncated)
        } else if bytes[0] == 0x1C {
            Ok(MotorCommandRequestPDUPayload::ForceControlStream { force_mn: i32_be_at(bytes, 1) })
        } else if bytes[0] == 0x1E {
            Ok(
                MotorCommandRequestPDUPayload::PositionControlStream {
                    position_um: i32_be_at(bytes, 1),
                },
            )
        } else if bytes[0] == 0x20 {
            Ok(MotorCommandRequestPDUPayload::KinematicDataStream {  })
        } else if bytes[0] == 0x22 {
            Ok(
                MotorCommandRequestPDUPayload::HapticDataStream {
                    haptic_status_register: u32_be_at(bytes, 1),
                },
            )
        } else {
            Ok(MotorCommandRequestPDUPayload::SleepDataStream {  })
        }
    }

    /// Reads the payload from the start of `bytes`; bytes after it are left
    /// alone.
    pub fn from_bytes(bytes: &[u8]) -> (r: Result<MotorCommandRequestPDUPayload, FrameError>)
        ensures
            r == MotorCommandRequestPDUPayload::parse(bytes@),
    {
        if bytes.len() < 5 {
            return Err(FrameError::Truncated);
        }
        let sub_code: u8 = bytes[0];
        if sub_code == 0x1C {
            Ok(
                MotorCommandRequestPDUPayload::ForceControlStream {
                    force_mn: read_i32_be(bytes, 1),
                },
            )
        } else if sub_code == 0x1E {
            Ok(
                MotorCommandRequestPDUPayload::PositionControlStream {
                    position_um: read_i32_be(bytes, 1),
                },
            )
        } else if sub_code == 0x20 {
            Ok(MotorCommandRequestPDUPayload::KinematicDataStream {  })
        } else if sub_code == 0x22 {
            Ok(
                MotorCommandRequestPDUPayload::HapticDataStream {
                    haptic_status_register: read_u32_be(bytes, 1),
                },
            )
        } else {
            Ok(MotorCommandRequestPDUPayload::SleepDataStream {  })
        }
    }

    /// Appends the payload to `out`.
    pub fn write(&self, out: &mut Vec<u8>)
        ensures
            final(out)@ == old(out)@ + self.wire(),
    {
        match self {
            MotorCommandRequestPDUPayload::ForceControlStream { force_mn } => {
                out.push(0x1C);
                push_i32_be(out, *force_mn);
            },
            MotorCommandRequestPDUPayload::PositionControlStream { position_um } => {
                out.push(0x1E);
                push_i32_be(out, *position_um);
            },
            MotorCommandRequestPDUPayload::KinematicDataStream {  } => {
                out.push(0x20);
                push_u32_be(out, 0);
            },
            MotorCommandRequestPDUPayload::HapticDataStream { haptic_status_register } => {
                out.push(0x22);
                push_u32_be(out, *haptic_status_register);
            },
            MotorCommandRequestPDUPayload::SleepDataStream {  } => {
                out.push(0);
                push_u32_be(out, 0);
            },
        }
        assert(out@ =~= old(out)@ + self.wire());
    }

    /// Only the first five bytes are read: two buffers that agree on them
    /// hold the same payload.
    pub proof fn lemma_parse_reads_prefix(a: Seq<u8>, b: Seq<u8>)
        requires
            same_prefix(a, b, 5),
        ensures
            MotorCommandRequestPDUPayload::parse(a) == MotorCommandRequestPDUPayload::parse(b),
    {
    }

    /// What is written is read back unchanged.
    pub proof fn lemma_round_trip(self)
        ensures
            self.wire().len() == 5,
            MotorCommandRequestPDUPayload::parse(self.wire()) == Ok::<
                MotorCommandRequestPDUPayload,
                FrameError,
            >(self),
    {
        let w = self.wire();
        match self {
            MotorCommandRequestPDUPayload::ForceControlStream { force_mn } => {
                assert(w.subrange(1, 5) =~= i32_be(force_mn));
                lemma_i32_be_round_trip(force_mn, w, 1);
            },
            MotorCommandRequestPDUPayload::PositionControlStream { position_um } => {
                assert(w.subrange(1, 5) =~= i32_be(position_um));
                lemma_i32_be_round_trip(position_um, w, 1);
            },
            MotorCommandRequestPDUPayload::KinematicDataStream {  } => {},
            MotorCommandRequestPDUPayload::HapticDataStream { haptic_status_register } => {
                assert(w.subrange(1, 5) =~= u32_be(haptic_status_register));
                lemma_u32_be_round_trip(haptic_status_register, w, 1);
            },
            MotorCommandRequestPDUPayload::SleepDataStream {  } => {},
        }
    }
}

/// The payload of a Read request: which register, and how wide.
#[derive(Debug, PartialEq, Eq, Clone, Copy, Structural)]
pub struct MotorReadRequestPDUPayload {
    pub register_address: u16,
    pub register_width: u8,
}

impl MotorReadRequestPDUPayload {
    /// The three bytes of the payload.
    pub open spec fn wire(self) -> Seq<u8> {
        u16_be(self.register_address) + seq![self.register_width]
    }

    /// The payload that stands at the start of `bytes`.
    pub open spec fn parse(bytes: Seq<u8>) -> Result<MotorReadRequestPDUPayload, FrameError> {
        if bytes.len() < 3 {
            Err(FrameError::Truncated)
        } else {
            Ok(
                MotorReadRequestPDUPayload {
                    register_address: u16_be_at(bytes, 0),
                    register_width: bytes[2],
                },
            )
        }
    }

    /// Reads the payload from the start of `bytes`; bytes after it are left
    /// alone.
    pub fn from_bytes(bytes: &[u8]) -> (r: Result<MotorReadRequestPDUPayload, FrameError>)
        ensures
            r == MotorReadRequestPDUPayload::parse(bytes@),
    {
        if bytes.len() < 3 {
            return Err(FrameError::Truncated);
        }
        Ok(
            MotorReadRequestPDUPayload {
                register_address: read_u16_be(bytes, 0),
                register_width: bytes[2],
            },
        )
    }

    /// Appends the payload to `out`.
    pub fn write(&self, out: &mut Vec<u8>)
        ensures
            final(out)@ == old(out)@ + self.wire(),
    {
        push_u16_be(out, self.register_address);
        out.push(self.register_width);
        assert(out@ =~= old(out)@ + self.wire());
    }

    /// Only the first three bytes are read: two buffers that agree on them
    /// hold the same payload.
    pub proof fn lemma_parse_reads_prefix(a: Seq<u8>, b: Seq<u8>)
        requires
            same_prefix(a, b, 3),
        ensures
            MotorReadRequestPDUPayload::parse(a) == MotorReadRequestPDUPayload::parse(b),
    {
    }

    /// What is written is read back unchanged.
    pub proof fn lemma_round_trip(self)
        ensures
            self.wire().len() == 3,
            MotorReadRequestPDUPayload::parse(self.wire()) == Ok::<
                MotorReadRequestPDUPayload,
                FrameError,
            >(self),
    {
        let w = self.wire();
        assert(w.subrange(0, 2) =~= u16_be(self.register_address));
        lemma_u16_be_round_trip(self.register_address, w, 0);
    }
}

/// The payload of a Write request: which register, how wide, and the value.
#[derive(Debug, PartialEq, Eq, Clone, Copy, Structural)]
pub struct MotorWriteRequestPDUPayload {
    pub register_address: u16,
    pub register_width: u8,
    pub register_data: u32,
}

impl MotorWriteRequestPDUPayload {
    /// The seven bytes of the payload.
    pub open spec fn wire(self) -> Seq<u8> {
        u16_be(self.register_address) + seq![self.register_width] + u32_be(self.register_data)
    }

    /// The payload that stands at the start of `bytes`.
    pub open spec fn parse(bytes: Seq<u8>) -> Result<MotorWriteRequestPDUPayload, FrameError> {
        if bytes.len() < 7 {
            Err(FrameError::Truncated)
        } else {
            Ok(
                MotorWriteRequestPDUPayload {
                    register_address: u16_be_at(bytes, 0),
                    register_width: bytes[2],
                    register_data: u32_be_at(bytes, 3),
                },
            )
        }
    }

    /// Reads the payload from the start of `bytes`; bytes after it are left
    /// alone.
    pub fn from_bytes(bytes: &[u8]) -> (r: Result<MotorWriteRequestPDUPayload, FrameError>)
        ensures
            r == MotorWriteRequestPDUPayload::parse(bytes@),
    {
        if bytes.len() < 7 {
            return Err(FrameError::Truncated);
        }
        Ok(
            MotorWriteRequestPDUPayload {
                register_address: read_u16_be(bytes, 0),
                register_width: bytes[2],
                register_data: read_u32_be(bytes, 3),
            },
        )
    }

    /// Appends the payload to `out`.
    pub fn write(&self, out: &mut Vec<u8>)
        ensures
            final(out)@ == old(out)@ + self.wire(),
    {
        push_u16_be(out, self.register_address);
        out.push(self.register_width);
        push_u32_be(out, self.register_data);
        assert(out@ =~= old(out)@ + self.wire());
    }

    /// Only the first seven bytes are read: two buffers that agree on them
    /// hold the same payload.
    pub proof fn lemma_parse_reads_prefix(a: Seq<u8>, b: Seq<u8>)
        requires
            same_prefix(a, b, 7),
        ensures
            MotorWriteRequestPDUPayload::parse(a) == MotorWriteRequestPDUPayload::parse(b),
    {
    }

    /// What is written is read back unchanged.
    pub proof fn lemma_round_trip(self)
        ensures
            self.wire().len() == 7,
            MotorWriteRequestPDUPayload::parse(self.wire()) == Ok::<
                MotorWriteRequestPDUPayload,
                FrameError,
            >(self),
    {
        let w = self.wire();
        assert(w.subrange(0, 2) =~= u16_be(self.register_address));
        assert(w.subrange(3, 7) =~= u32_be(self.register_data));
        lemma_u16_be_round_trip(self.register_address, w, 0);
        lemma_u32_be_round_trip(self.register_data, w, 3);
    }
}

/// The register value in which exactly the bits of the raised flags are set.
pub open spec fn pack_flags(
    configuration_errors: bool,
    force_clipping: bool,
    temperature_exceeded: bool,
    force_exceeded: bool,
    power_exceeded: bool,
    shaft_image_failed: bool,
    voltage_invalid: bool,
    communication_timeout: bool,
    auto_zero_failed: bool,
) -> u16 {
    flag_mask(configuration_errors, 0x0001) | flag_mask(force_clipping, 0x0020) | flag_mask(
        temperature_exceeded,
        0x0040,
    ) | flag_mask(force_exceeded, 0x0080) | flag_mask(power_exceeded, 0x0100) | flag_mask(
        shaft_image_failed,
        0x0200,
    ) | flag_mask(voltage_invalid, 0x0400) | flag_mask(communication_timeout, 0x0800) | flag_mask(
        auto_zero_failed,
        0x2000,
    )
}

/// The bits of the error register that carry a flag; the others are reserved.
pub const ERROR_FLAG_BITS: u16 = 0x2FE1;

/// Each flag is found again at its own bit of the packed register.
proof fn lemma_pack_flags_unpacks(
    configuration_errors: bool,
    force_clipping: bool,
    temperature_exceeded: bool,
    force_exceeded: bool,
    power_exceeded: bool,
    shaft_image_failed: bool,
    voltage_invalid: bool,
    communication_timeout: bool,
    auto_zero_failed: bool,
)
    by (bit_vector)
    ensures
        ({
            let word = pack_flags(
                configuration_errors,
                force_clipping,
                temperature_exceeded,
                force_exceeded,
                power_exceeded,
                shaft_image_failed,
                voltage_invalid,
                communication_timeout,
                auto_zero_failed,
            );
            &&& flag_at(word, 0x0001) == configuration_errors
            &&& flag_at(word, 0x0020) == force_clipping
            &&& flag_at(word, 0x0040) == temperature_exceeded
            &&& flag_at(word, 0x0080) == force_exceeded
            &&& flag_at(word, 0x0100) == power_exceeded
            &&& flag_at(word, 0x0200) == shaft_image_failed
            &&& flag_at(word, 0x0400) == voltage_invalid
            &&& flag_at(word, 0x0800) == communication_timeout
            &&& flag_at(word, 0x2000) == auto_zero_failed
        }),
{
}

/// Packing the flags of a register value gives the value with its reserved
/// bits cleared.
proof fn lemma_unpacked_word_packs(word: u16)
    by (bit_vector)
    ensures
        pack_flags(
            flag_at(word, 0x0001),
            flag_at(word, 0x0020),
            flag_at(word, 0x0040),
            flag_at(word, 0x0080),
            flag_at(word, 0x0100),
            flag_at(word, 0x0200),
            flag_at(word, 0x0400),
            flag_at(word, 0x0800),
            flag_at(word, 0x2000),
        ) == word & 0x2FE1,
{
}

/// The error register of the motor: sixteen bits, bit 0 first.
///
/// | bits  | field                   |
/// |-------|-------------------------|
/// | 0     | `configuration_errors`  |
/// | 1-4   | `reserve0`              |
/// | 5     | `force_clipping`        |
/// | 6     | `temperature_exceeded`  |
/// | 7     | `force_exceeded`        |
/// | 8     | `power_exceeded`        |
/// | 9     | `shaft_image_failed`    |
/// | 10    | `voltage_invalid`       |
/// | 11    | `communication_timeout` |
/// | 12    | `reserve1`              |
/// | 13    | `auto_zero_failed`      |
/// | 14-15 | `reserve2`              |
///
/// The reserved groups keep their place and width. They carry nothing:
/// reading a register leaves them zero, and writing one sends zeros for them.
#[derive(Debug, PartialEq, Eq, Clone, Copy, Structural)]
pub struct OrcaErrors {
    pub configuration_errors: bool,
    pub reserve0: u8,
    pub force_clipping: bool,
    pub temperature_exceeded: bool,
    pub force_exceeded: bool,
    pub power_exceeded: bool,
    pub shaft_image_failed: bool,
    pub voltage_invalid: bool,
    pub communication_timeout: bool,
    pub reserve1: u8,
    pub auto_zero_failed: bool,
    pub reserve2: u16,
}

impl OrcaErrors {
    /// The register value: the bits of the raised flags, the reserved bits
    /// zero.
    pub open spec fn bits(self) -> u16 {
        pack_flags(
            self.configuration_errors,
            self.force_clipping,
            self.temperature_exceeded,
            self.force_exceeded,
            self.power_exceeded,
            self.shaft_image_failed,
            self.voltage_invalid,
            self.communication_timeout,
            self.auto_zero_failed,
        )
    }

    /// The flags that a register value holds, with the reserved groups zero.
    pub open spec fn of_bits(word: u16) -> OrcaErrors {
        OrcaErrors {
            configuration_errors: flag_at(word, 0x0001),
            reserve0: 0,
            force_clipping: flag_at(word, 0x0020),
            temperature_exceeded: flag_at(word, 0x0040),
            force_exceeded: flag_at(word, 0x0080),
            power_exceeded: flag_at(word, 0x0100),
            shaft_image_failed: flag_at(word, 0x0200),
            voltage_invalid: flag_at(word, 0x0400),
            communication_timeout: flag_at(word, 0x0800),
            reserve1: 0,
            auto_zero_failed: flag_at(word, 0x2000),
            reserve2: 0,
        }
    }

    /// True when the reserved groups are zero, as they are in every value
    /// that was read from a register.
    pub open spec fn reserved_clear(self) -> bool {
        self.reserve0 == 0 && self.reserve1 == 0 && self.reserve2 == 0
    }

    /// True when no flag is raised.
    pub open spec fn all_clear(self) -> bool {
        !self.configuration_errors && !self.force_clipping && !self.temperature_exceeded
            && !self.force_exceeded && !self.power_exceeded && !self.shaft_image_failed
            && !self.voltage_invalid && !self.communication_timeout && !self.auto_zero_failed
    }

    /// Flags with the reserved groups zero are read back unchanged from their
    /// register value.
    pub proof fn lemma_bits_round_trip(self)
        requires
            self.reserved_clear(),
        ensures
            OrcaErrors::of_bits(self.bits()) == self,
    {
        lemma_pack_flags_unpacks(
            self.configuration_errors,
            self.force_clipping,
            self.temperature_exceeded,
            self.force_exceeded,
            self.power_exceeded,
            self.shaft_image_failed,
            self.voltage_invalid,
            self.communication_timeout,
            self.auto_zero_failed,
        );
    }

    /// Reading a register value and writing it again keeps the flag bits and
    /// clears the reserved ones.
    pub proof fn lemma_word_round_trip(word: u16)
        ensures
            OrcaErrors::of_bits(word).reserved_clear(),
            OrcaErrors::of_bits(word).bits() == word & ERROR_FLAG_BITS,
    {
        lemma_unpacked_word_packs(word);
    }
}

impl Default for OrcaErrors {
    fn default() -> (errors: OrcaErrors)
        ensures
            errors.all_clear(),
            errors.reserved_clear(),
    {
        OrcaErrors {
            configuration_errors: false,
            reserve0: 0,
            force_clipping: false,
            temperature_exceeded: false,
            force_exceeded: false,
            power_exceeded: false,
            shaft_image_failed: false,
            voltage_invalid: false,
            communication_timeout: false,
            reserve1: 0,
            auto_zero_failed: false,
            reserve2: 0,
        }
    }
}

impl From<u16> for OrcaErrors {
    fn from(value: u16) -> (errors: OrcaErrors) {
        OrcaErrors {
            configuration_errors: has_flag(value, 0x0001),
            reserve0: 0,
            force_clipping: has_flag(value, 0x0020),
            temperature_exceeded: has_flag(value, 0x0040),
            force_exceeded: has_flag(value, 0x0080),
            power_exceeded: has_flag(value, 0x0100),
            shaft_image_failed: has_flag(value, 0x0200),
            voltage_invalid: has_flag(value, 0x0400),
            communication_timeout: has_flag(value, 0x0800),
            reserve1: 0,
            auto_zero_failed: has_flag(value, 0x2000),
            reserve2: 0,
        }
    }
}

impl FromSpecImpl<u16> for OrcaErrors {
    open spec fn obeys_from_spec() -> bool {
        true
    }

    open spec fn from_spec(value: u16) -> OrcaErrors {
        OrcaErrors::of_bits(value)
    }
}

impl From<OrcaErrors> for u16 {
    fn from(val: OrcaErrors) -> (word: u16) {
        mask_if(val.configuration_errors, 0x0001) | mask_if(val.force_clipping, 0x0020) | mask_if(
            val.temperature_exceeded,
            0x0040,
        ) | mask_if(val.force_exceeded, 0x0080) | mask_if(val.power_exceeded, 0x0100) | mask_if(
            val.shaft_image_failed,
            0x0200,
        ) | mask_if(val.voltage_invalid, 0x0400) | mask_if(val.communication_timeout, 0x0800)
            | mask_if(val.auto_zero_failed, 0x2000)
    }
}

impl FromSpecImpl<OrcaErrors> for u16 {
    open spec fn obeys_from_spec() -> bool {
        true
    }

    open spec fn from_spec(val: OrcaErrors) -> u16 {
        val.bits()
    }
}

/// The payload of a Command response: where the shaft is and how the motor
/// fares.
#[derive(Debug, PartialEq, Eq, Clone, Copy, Structural)]
pub struct MotorCommandResponsePDUPayload {
    pub position_um: i32,
    pub force_mn: i32,
    pub power_w: u16,
    pub temperature_c: u8,
    pub voltage_mv: u16,
    pub error: OrcaErrors,
}

impl MotorCommandResponsePDUPayload {
    /// The fifteen bytes of the payload.
    pub open spec fn wire(self) -> Seq<u8> {
        i32_be(self.position_um) + i32_be(self.force_mn) + u16_be(self.power_w) + seq![
            self.temperature_c,
        ] + u16_be(self.voltage_mv) + u16_be(self.error.bits())
    }

    /// The payload whose fifteen bytes start at `at` in `bytes`.
    pub open spec fn decoded_at(bytes: Seq<u8>, at: int) -> MotorCommandResponsePDUPayload
        recommends
            0 <= at,
            at + 15 <= bytes.len(),
    {
        MotorCommandResponsePDUPayload {
            position_um: i32_be_at(bytes, at),
            force_mn: i32_be_at(bytes, at + 4),
            power_w: u16_be_at(bytes, at + 8),
            temperature_c: bytes[at + 10],
            voltage_mv: u16_be_at(bytes, at + 11),
            error: OrcaErrors::of_bits(u16_be_at(bytes, at + 13)),
        }
    }

    /// The payload that stands at the start of `bytes`.
    pub open spec fn parse(bytes: Seq<u8>) -> Result<MotorCommandResponsePDUPayload, FrameError> {
        if bytes.len() < 15 {
            Err(FrameError::Truncated)
        } else {
            Ok(MotorCommandResponsePDUPayload::decoded_at(bytes, 0))
        }
    }

    /// The payload as it is read back from its own bytes: the same, but for
    /// the reserved groups of the error register, which come back zero.
    pub open spec fn normalized(self) -> MotorCommandResponsePDUPayload {
        MotorCommandResponsePDUPayload {
            position_um: self.position_um,
            force_mn: self.force_mn,
            power_w: self.power_w,
            temperature_c: self.temperature_c,
            voltage_mv: self.voltage_mv,
            error: OrcaErrors::of_bits(self.error.bits()),
        }
    }

    /// Reads the payload whose fifteen bytes start at `at`.
    fn read_at(bytes: &[u8], at: usize) -> (payload: MotorCommandResponsePDUPayload)
        requires
            at + 15 <= bytes@.len(),
        ensures
            payload == MotorCommandResponsePDUPayload::decoded_at(bytes@, at as int),
    {
        let len: usize = bytes.len();
        MotorCommandResponsePDUPayload {
            position_um: read_i32_be(bytes, at),
            force_mn: read_i32_be(bytes, at + 4),
            power_w: read_u16_be(bytes, at + 8),
            temperature_c: bytes[at + 10],
            voltage_mv: read_u16_be(bytes, at + 11),
            error: OrcaErrors::from(read_u16_be(bytes, at + 13)),
        }
    }

    /// Reads the payload from the start of `bytes`; bytes after it are left
    /// alone.
    pub fn from_bytes(bytes: &[u8]) -> (r: Result<MotorCommandResponsePDUPayload, FrameError>)
        ensures
            r == MotorCommandResponsePDUPayload::parse(bytes@),
    {
        if bytes.len() < 15 {
            return Err(FrameError::Truncated);
        }
        Ok(MotorCommandResponsePDUPayload::read_at(bytes, 0))
    }

    /// Appends the payload to `out`.
    pub fn write(&self, out: &mut Vec<u8>)
        ensures
            final(out)@ == old(out)@ + self.wire(),
    {
        push_i32_be(out, self.position_um);
        push_i32_be(out, self.force_mn);
        push_u16_be(out, self.power_w);
        out.push(self.temperature_c);
        push_u16_be(out, self.voltage_mv);
        push_u16_be(out, u16::from(self.error));
        assert(out@ =~= old(out)@ + self.wire());
    }

    /// Wherever the bytes of a payload stand in a buffer, reading there gives
    /// the payload back, its reserved error bits cleared.
    pub proof fn lemma_decoded_where_written(self, bytes: Seq<u8>, at: int)
        requires
            0 <= at,
            at + 15 <= bytes.len(),
            bytes.subrange(at, at + 15) == self.wire(),
        ensures
            MotorCommandResponsePDUPayload::decoded_at(bytes, at) == self.normalized(),
    {
        let w = bytes.subrange(at, at + 15);
        assert forall|j: int| 0 <= j < 15 implies bytes[at + j] == #[trigger] w[j] by {}
        assert(bytes.subrange(at, at + 4) =~= i32_be(self.position_um)) by {
            assert(w.subrange(0, 4) =~= i32_be(self.position_um));
            assert(bytes.subrange(at, at + 4) =~= w.subrange(0, 4));
        }
        assert(bytes.subrange(at + 4, at + 8) =~= i32_be(self.force_mn)) by {
            assert(w.subrange(4, 8) =~= i32_be(self.force_mn));
            assert(bytes.subrange(at + 4, at + 8) =~= w.subrange(4, 8));
        }
        assert(bytes.subrange(at + 8, at + 10) =~= u16_be(self.power_w)) by {
            assert(w.subrange(8, 10) =~= u16_be(self.power_w));
            assert(bytes.subrange(at + 8, at + 10) =~= w.subrange(8, 10));
        }
        assert(bytes[at + 10] == self.temperature_c) by {
            assert(w[10] == self.temperature_c);
        }
        assert(bytes.subrange(at + 11, at + 13) =~= u16_be(self.voltage_mv)) by {
            assert(w.subrange(11, 13) =~= u16_be(self.voltage_mv));
            assert(bytes.subrange(at + 11, at + 13) =~= w.subrange(11, 13));
        }
        assert(bytes.subrange(at + 13, at + 15) =~= u16_be(self.error.bits())) by {
            assert(w.subrange(13, 15) =~= u16_be(self.error.bits()));
            assert(bytes.subrange(at + 13, at + 15) =~= w.subrange(13, 15));
        }
        lemma_i32_be_round_trip(self.position_um, bytes, at);
        lemma_i32_be_round_trip(self.force_mn, bytes, at + 4);
        lemma_u16_be_round_trip(self.power_w, bytes, at + 8);
        lemma_u16_be_round_trip(self.voltage_mv, bytes, at + 11);
        lemma_u16_be_round_trip(self.error.bits(), bytes, at + 13);
    }

    /// Only the first fifteen bytes are read: two buffers that agree on them
    /// hold the same payload.
    pub proof fn lemma_parse_reads_prefix(a: Seq<u8>, b: Seq<u8>)
        requires
            same_prefix(a, b, 15),
        ensures
            MotorCommandResponsePDUPayload::parse(a) == MotorCommandResponsePDUPayload::parse(b),
    {
    }

    /// What is written is read back unchanged, the reserved groups of the
    /// error register apart: they come back zero.
    pub proof fn lemma_round_trip(self)
        ensures
            self.wire().len() == 15,
            MotorCommandResponsePDUPayload::parse(self.wire()) == Ok::<
                MotorCommandResponsePDUPayload,
                FrameError,
            >(self.normalized()),
            self.error.reserved_clear() ==> self.normalized() == self,
    {
        let w = self.wire();
        assert(w.subrange(0, 15) =~= w);
        self.lemma_decoded_where_written(w, 0);
        if self.error.reserved_clear() {
            self.error.lemma_bits_round_trip();
        }
    }
}

/// The payload of a Read response: the register value, the mode the motor is
/// in, and the same status a Command response carries. A mode byte that names
/// no known mode reads as the default mode.
#[derive(Debug, PartialEq, Eq, Clone, Copy, Structural)]
pub struct MotorReadResponsePDUPayload {
    pub read_register_value: u32,
    pub mode_of_operation: OrcaModeOfOperation,
    pub command_response: MotorCommandResponsePDUPayload,
}

impl MotorReadResponsePDUPayload {
    /// The twenty bytes of the payload.
    pub open spec fn wire(self) -> Seq<u8> {
        u32_be(self.read_register_value) + seq![self.mode_of_operation.byte()]
            + self.command_response.wire()
    }

    /// The payload that stands at the start of `bytes`.
    pub open spec fn parse(bytes: Seq<u8>) -> Result<MotorReadResponsePDUPayload, FrameError> {
        if bytes.len() < 20 {
            Err(FrameError::Truncated)
        } else {
            Ok(
                MotorReadResponsePDUPayload {
                    read_register_value: u32_be_at(bytes, 0),
                    mode_of_operation: OrcaModeOfOperation::of_byte_or_default(bytes[4]),
                    command_response: MotorCommandResponsePDUPayload::decoded_at(bytes, 5),
                },
            )
        }
    }

    /// The payload as it is read back from its own bytes.
    pub open spec fn normalized(self) -> MotorReadResponsePDUPayload {
        MotorReadResponsePDUPayload {
            read_register_value: self.read_register_value,
            mode_of_operation: self.mode_of_operation,
            command_response: self.command_response.normalized(),
        }
    }

    /// Reads the payload from the start of `bytes`; bytes after it are left
    /// alone.
    pub fn from_bytes(bytes: &[u8]) -> (r: Result<MotorReadResponsePDUPayload, FrameError>)
        ensures
            r == MotorReadResponsePDUPayload::parse(bytes@),
    {
        if bytes.len() < 20 {
            return Err(FrameError::Truncated);
        }
        Ok(
            MotorReadResponsePDUPayload {
                read_register_value: read_u32_be(bytes, 0),
                mode_of_operation: OrcaModeOfOperation::from_byte_or_default(bytes[4]),
                command_response: MotorCommandResponsePDUPayload::read_at(bytes, 5),
            },
        )
    }

    /// Appends the payload to `out`.
    pub fn write(&self, out: &mut Vec<u8>)
        ensures
            final(out)@ == old(out)@ + self.wire(),
    {
        push_u32_be(out, self.read_register_value);
        out.push(u8::from(self.mode_of_operation));
        self.command_response.write(out);
        assert(out@ =~= old(out)@ + self.wire());
    }

    /// Only the first twenty bytes are read: two buffers that agree on them
    /// hold the same payload.
    pub proof fn lemma_parse_reads_prefix(a: Seq<u8>, b: Seq<u8>)
        requires
            same_prefix(a, b, 20),
        ensures
            MotorReadResponsePDUPayload::parse(a) == MotorReadResponsePDUPayload::parse(b),
    {
    }

    /// What is written is read back unchanged, the reserved groups of the
    /// error register apart: they come back zero.
    pub proof fn lemma_round_trip(self)
        ensures
            self.wire().len() == 20,
            MotorReadResponsePDUPayload::parse(self.wire()) == Ok::<
                MotorReadResponsePDUPayload,
                FrameError,
            >(self.normalized()),
            self.command_response.error.reserved_clear() ==> self.normalized() == self,
    {
        let w = self.wire();
        self.command_response.lemma_round_trip();
        assert(w.subrange(0, 4) =~= u32_be(self.read_register_value));
        assert(w.subrange(5, 20) =~= self.command_response.wire());
        lemma_u32_be_round_trip(self.read_register_value, w, 0);
        self.command_response.lemma_decoded_where_written(w, 5);
        self.mode_of_operation.lemma_byte_round_trip();
    }
}

/// The payload of a Write response: the mode the motor is in, and the same
/// status a Command response carries. A mode byte that names no known mode
/// reads as the default mode.
#[derive(Debug, PartialEq, Eq, Clone, Copy, Structural)]
pub struct MotorWriteResponsePDUPayload {
    pub mode_of_operation: OrcaModeOfOperation,
    pub command_response: MotorCommandResponsePDUPayload,
}

impl MotorWriteResponsePDUPayload {
    /// The sixteen bytes of the payload.
    pub open spec fn wire(self) -> Seq<u8> {
        seq![self.mode_of_operation.byte()] + self.command_response.wire()
    }

    /// The payload that stands at the start of `bytes`.
    pub open spec fn parse(bytes: Seq<u8>) -> Result<MotorWriteResponsePDUPayload, FrameError> {
        if bytes.len() < 16 {
            Err(FrameError::Truncated)
        } else {
            Ok(
                MotorWriteResponsePDUPayload {
                    mode_of_operation: OrcaModeOfOperation::of_byte_or_default(bytes[0]),
                    command_response: MotorCommandResponsePDUPayload::decoded_at(bytes, 1),
                },
            )
        }
    }

    /// The payload as it is read back from its own bytes.
    pub open spec fn normalized(self) -> MotorWriteResponsePDUPayload {
        MotorWriteResponsePDUPayload {
            mode_of_operation: self.mode_of_operation,
            command_response: self.command_response.normalized(),
        }
    }

    /// Reads the payload from the start of `bytes`; bytes after it are left
    /// alone.
    pub fn from_bytes(bytes: &[u8]) -> (r: Result<MotorWriteResponsePDUPayload, FrameError>)
        ensures
            r == MotorWriteResponsePDUPayload::parse(bytes@),
    {
        if bytes.len() < 16 {
            return Err(FrameError::Truncated);
        }
        Ok(
            MotorWriteResponsePDUPayload {
                mode_of_operation: OrcaModeOfOperation::from_byte_or_default(bytes[0]),
                command_response: MotorCommandResponsePDUPayload::read_at(bytes, 1),
            },
        )
    }

    /// Appends the payload to `out`.
    pub fn write(&self, out: &mut Vec<u8>)
        ensures
            final(out)@ == old(out)@ + self.wire(),
    {
        out.push(u8::from(self.mode_of_operation));
        self.command_response.write(out);
        assert(out@ =~= old(out)@ + self.wire());
    }

    /// Only the first sixteen bytes are read: two buffers that agree on them
    /// hold the same payload.
    pub proof fn lemma_parse_reads_prefix(a: Seq<u8>, b: Seq<u8>)
        requires
            same_prefix(a, b, 16),
        ensures
            MotorWriteResponsePDUPayload::parse(a) == MotorWriteResponsePDUPayload::parse(b),
    {
    }

    /// What is written is read back unchanged, the reserved groups of the
    /// error register apart: they come back zero.
    pub proof fn lemma_round_trip(self)
        ensures
            self.wire().len() == 16,
            MotorWriteResponsePDUPayload::parse(self.wire()) == Ok::<
                MotorWriteResponsePDUPayload,
                FrameError,
            >(self.normalized()),
            self.command_response.error.reserved_clear() ==> self.normalized() == self,
    {
        let w = self.wire();
        self.command_response.lemma_round_trip();
        assert(w.subrange(1, 16) =~= self.command_response.wire());
        self.command_response.lemma_decoded_where_written(w, 1);
        self.mode_of_operation.lemma_byte_round_trip();
    }
}

/// A request PDU: the function code selects the payload.
#[derive(Debug, PartialEq, Eq, Clone, Copy, Structural)]
pub enum OrcaHighSpeedRequestPDU {
    Manage(ManageHighSpeedRequestPDUPayload),
    Command(MotorCommandRequestPDUPayload),
    Read(MotorReadRequestPDUPayload),
    Write(MotorWriteRequestPDUPayload),
}

impl OrcaHighSpeedRequestPDU {
    /// The function code that opens the PDU.
    pub open spec fn function_code(self) -> FunctionCode {
        match self {
            OrcaHighSpeedRequestPDU::Manage(_) => FunctionCode::Manage,
            OrcaHighSpeedRequestPDU::Command(_) => FunctionCode::Command,
            OrcaHighSpeedRequestPDU::Read(_) => FunctionCode::Read,
            OrcaHighSpeedRequestPDU::Write(_) => FunctionCode::Write,
        }
    }

    /// The bytes of the payload, without the function code.
    pub open spec fn payload_wire(self) -> Seq<u8> {
        match self {
            OrcaHighSpeedRequestPDU::Manage(payload) => payload.wire(),
            OrcaHighSpeedRequestPDU::Command(payload) => payload.wire(),
            OrcaHighSpeedRequestPDU::Read(payload) => payload.wire(),
            OrcaHighSpeedRequestPDU::Write(payload) => payload.wire(),
        }
    }

    /// The bytes of the PDU: the function code, then the payload.
    pub open spec fn wire(self) -> Seq<u8> {
        seq![self.function_code().byte()] + self.payload_wire()
    }

    /// The PDU that stands at the start of `bytes`.
    pub open spec fn parse(bytes: Seq<u8>) -> Result<OrcaHighSpeedRequestPDU, FrameError> {
        if bytes.len() < 1 {
            Err(FrameError::Truncated)
        } else {
            let rest = bytes.subrange(1, bytes.len() as int);
            match FunctionCode::of_byte(bytes[0]) {
                None => Err(FrameError::UnknownFunctionCode),
                Some(FunctionCode::Manage) => match ManageHighSpeedRequestPDUPayload::parse(rest) {
                    Ok(payload) => Ok(OrcaHighSpeedRequestPDU::Manage(payload)),
                    Err(e) => Err(e),
                },
                Some(FunctionCode::Command) => match MotorCommandRequestPDUPayload::parse(rest) {
                    Ok(payload) => Ok(OrcaHighSpeedRequestPDU::Command(payload)),
                    Err(e) => Err(e),
                },
                Some(FunctionCode::Read) => match MotorReadRequestPDUPayload::parse(rest) {
                    Ok(payload) => Ok(OrcaHighSpeedRequestPDU::Read(payload)),
                    Err(e) => Err(e),
                },
                Some(FunctionCode::Write) => match MotorWriteRequestPDUPayload::parse(rest) {
                    Ok(payload) => Ok(OrcaHighSpeedRequestPDU::Write(payload)),
                    Err(e) => Err(e),
                },
            }
        }
    }

    /// The function code that opens the PDU.
    pub fn code(&self) -> (code: FunctionCode)
        ensures
            code == self.function_code(),
    {
        match self {
            OrcaHighSpeedRequestPDU::Manage(_) => FunctionCode::Manage,
            OrcaHighSpeedRequestPDU::Command(_) => FunctionCode::Command,
            OrcaHighSpeedRequestPDU::Read(_) => FunctionCode::Read,
            OrcaHighSpeedRequestPDU::Write(_) => FunctionCode::Write,
        }
    }

    /// Reads the PDU from the start of `bytes`; bytes after it are left alone.
    pub fn from_bytes(bytes: &[u8]) -> (r: Result<OrcaHighSpeedRequestPDU, FrameError>)
        ensures
            r == OrcaHighSpeedRequestPDU::parse(bytes@),
    {
        if bytes.len() < 1 {
            return Err(FrameError::Truncated);
        }
        let rest = slice_subrange(bytes, 1, bytes.len());
        match FunctionCode::try_from(bytes[0]) {
            Err(e) => Err(e),
            Ok(FunctionCode::Manage) => match ManageHighSpeedRequestPDUPayload::from_bytes(rest) {
                Ok(payload) => Ok(OrcaHighSpeedRequestPDU::Manage(payload)),
                Err(e) => Err(e),
            },
            Ok(FunctionCode::Command) => match MotorCommandRequestPDUPayload::from_bytes(rest) {
                Ok(payload) => Ok(OrcaHighSpeedRequestPDU::Command(payload)),
                Err(e) => Err(e),
            },
            Ok(FunctionCode::Read) => match MotorReadRequestPDUPayload::from_bytes(rest) {
                Ok(payload) => Ok(OrcaHighSpeedRequestPDU::Read(payload)),
                Err(e) => Err(e),
            },
            Ok(FunctionCode::Write) => match MotorWriteRequestPDUPayload::from_bytes(rest) {
                Ok(payload) => Ok(OrcaHighSpeedRequestPDU::Write(payload)),
                Err(e) => Err(e),
            },
        }
    }

    /// Appends the PDU to `out`.
    pub fn write(&self, out: &mut Vec<u8>)
        ensures
            final(out)@ == old(out)@ + self.wire(),
    {
        out.push(u8::from(self.code()));
        match self {
            OrcaHighSpeedRequestPDU::Manage(payload) => payload.write(out),
            OrcaHighSpeedRequestPDU::Command(payload) => payload.write(out),
            OrcaHighSpeedRequestPDU::Read(payload) => payload.write(out),
            OrcaHighSpeedRequestPDU::Write(payload) => payload.write(out),
        }
        assert(out@ =~= old(out)@ + self.wire());
    }

    /// What is written is read back unchanged, and has the length that its
    /// function code fixes.
    pub proof fn lemma_round_trip(self)
        ensures
            self.wire().len() == self.function_code().request_len(),
            OrcaHighSpeedRequestPDU::parse(self.wire()) == Ok::<
                OrcaHighSpeedRequestPDU,
                FrameError,
            >(self),
    {
        let w = self.wire();
        assert(w.subrange(1, w.len() as int) =~= self.payload_wire());
        match self {
            OrcaHighSpeedRequestPDU::Manage(payload) => payload.lemma_round_trip(),
            OrcaHighSpeedRequestPDU::Command(payload) => payload.lemma_round_trip(),
            OrcaHighSpeedRequestPDU::Read(payload) => payload.lemma_round_trip(),
            OrcaHighSpeedRequestPDU::Write(payload) => payload.lemma_round_trip(),
        }
    }
}

/// A response PDU: the function code selects the payload, and mirrors the
/// code of the request it answers.
#[derive(Debug, PartialEq, Eq, Clone, Copy, Structural)]
pub enum OrcaHighSpeedResponsePDU {
    Manage(ManageHighSpeedResponsePDUPayload),
    Command(MotorCommandResponsePDUPayload),
    Read(MotorReadResponsePDUPayload),
    Write(MotorWriteResponsePDUPayload),
}

impl OrcaHighSpeedResponsePDU {
    /// The function code that opens the PDU.
    pub open spec fn function_code(self) -> FunctionCode {
        match self {
            OrcaHighSpeedResponsePDU::Manage(_) => FunctionCode::Manage,
            OrcaHighSpeedResponsePDU::Command(_) => FunctionCode::Command,
            OrcaHighSpeedResponsePDU::Read(_) => FunctionCode::Read,
            OrcaHighSpeedResponsePDU::Write(_) => FunctionCode::Write,
        }
    }

    /// The bytes of the payload, without the function code.
    pub open spec fn payload_wire(self) -> Seq<u8> {
        match self {
            OrcaHighSpeedResponsePDU::Manage(payload) => payload.wire(),
            OrcaHighSpeedResponsePDU::Command(payload) => payload.wire(),
            OrcaHighSpeedResponsePDU::Read(payload) => payload.wire(),
            OrcaHighSpeedResponsePDU::Write(payload) => payload.wire(),
        }
    }

    /// The bytes of the PDU: the function code, then the payload.
    pub open spec fn wire(self) -> Seq<u8> {
        seq![self.function_code().byte()] + self.payload_wire()
    }

    /// The PDU that stands at the start of `bytes`.
    pub open spec fn parse(bytes: Seq<u8>) -> Result<OrcaHighSpeedResponsePDU, FrameError> {
        if bytes.len() < 1 {
            Err(FrameError::Truncated)
        } else {
            let rest = bytes.subrange(1, bytes.len() as int);
            match FunctionCode::of_byte(bytes[0]) {
                None => Err(FrameError::UnknownFunctionCode),
                Some(FunctionCode::Manage) => match ManageHighSpeedResponsePDUPayload::parse(rest) {
                    Ok(payload) => Ok(OrcaHighSpeedResponsePDU::Manage(payload)),
                    Err(e) => Err(e),
                },
                Some(FunctionCode::Command) => match MotorCommandResponsePDUPayload::parse(rest) {
                    Ok(payload) => Ok(OrcaHighSpeedResponsePDU::Command(payload)),
                    Err(e) => Err(e),
                },
                Some(FunctionCode::Read) => match MotorReadResponsePDUPayload::parse(rest) {
                    Ok(payload) => Ok(OrcaHighSpeedResponsePDU::Read(payload)),
                    Err(e) => Err(e),
                },
                Some(FunctionCode::Write) => match MotorWriteResponsePDUPayload::parse(rest) {
                    Ok(payload) => Ok(OrcaHighSpeedResponsePDU::Write(payload)),
                    Err(e) => Err(e),
                },
            }
        }
    }

    /// The PDU as it is read back from its own bytes: the same, but for the
    /// reserved groups of an error register, which come back zero.
    pub open spec fn normalized(self) -> OrcaHighSpeedResponsePDU {
        match self {
            OrcaHighSpeedResponsePDU::Manage(payload) => OrcaHighSpeedResponsePDU::Manage(payload),
            OrcaHighSpeedResponsePDU::Command(payload) => OrcaHighSpeedResponsePDU::Command(
                payload.normalized(),
            ),
            OrcaHighSpeedResponsePDU::Read(payload) => OrcaHighSpeedResponsePDU::Read(
                payload.normalized(),
            ),
            OrcaHighSpeedResponsePDU::Write(payload) => OrcaHighSpeedResponsePDU::Write(
                payload.normalized(),
            ),
        }
    }

    /// True when the reserved groups of the error register, if the PDU has
    /// one, are zero.
    pub open spec fn reserved_clear(self) -> bool {
        match self {
            OrcaHighSpeedResponsePDU::Manage(_) => true,
            OrcaHighSpeedResponsePDU::Command(payload) => payload.error.reserved_clear(),
            OrcaHighSpeedResponsePDU::Read(payload) => {
                payload.command_response.error.reserved_clear()
            },
            OrcaHighSpeedResponsePDU::Write(payload) => {
                payload.command_response.error.reserved_clear()
            },
        }
    }

    /// The function code that opens the PDU.
    pub fn code(&self) -> (code: FunctionCode)
        ensures
            code == self.function_code(),
    {
        match self {
            OrcaHighSpeedResponsePDU::Manage(_) => FunctionCode::Manage,
            OrcaHighSpeedResponsePDU::Command(_) => FunctionCode::Command,
            OrcaHighSpeedResponsePDU::Read(_) => FunctionCode::Read,
            OrcaHighSpeedResponsePDU::Write(_) => FunctionCode::Write,
        }
    }

    /// Reads the PDU from the start of `bytes`; bytes after it are left alone.
    pub fn from_bytes(bytes: &[u8]) -> (r: Result<OrcaHighSpeedResponsePDU, FrameError>)
        ensures
            r == OrcaHighSpeedResponsePDU::parse(bytes@),
    {
        if bytes.len() < 1 {
            return Err(FrameError::Truncated);
        }
        let rest = slice_subrange(bytes, 1, bytes.len());
        match FunctionCode::try_from(bytes[0]) {
            Err(e) => Err(e),
            Ok(FunctionCode::Manage) => match ManageHighSpeedResponsePDUPayload::from_bytes(rest) {
                Ok(payload) => Ok(OrcaHighSpeedResponsePDU::Manage(payload)),
                Err(e) => Err(e),
            },
            Ok(FunctionCode::Command) => match MotorCommandResponsePDUPayload::from_bytes(rest) {
                Ok(payload) => Ok(OrcaHighSpeedResponsePDU::Command(payload)),
                Err(e) => Err(e),
            },
            Ok(FunctionCode::Read) => match MotorReadResponsePDUPayload::from_bytes(rest) {
                Ok(payload) => Ok(OrcaHighSpeedResponsePDU::Read(payload)),
                Err(e) => Err(e),
            },
            Ok(FunctionCode::Write) => match MotorWriteResponsePDUPayload::from_bytes(rest) {
                Ok(payload) => Ok(OrcaHighSpeedResponsePDU::Write(payload)),
                Err(e) => Err(e),
            },
        }
    }

    /// Appends the PDU to `out`.
    pub fn write(&self, out: &mut Vec<u8>)
        ensures
            final(out)@ == old(out)@ + self.wire(),
    {
        out.push(u8::from(self.code()));
        match self {
            OrcaHighSpeedResponsePDU::Manage(payload) => payload.write(out),
            OrcaHighSpeedResponsePDU::Command(payload) => payload.write(out),
            OrcaHighSpeedResponsePDU::Read(payload) => payload.write(out),
            OrcaHighSpeedResponsePDU::Write(payload) => payload.write(out),
        }
        assert(out@ =~= old(out)@ + self.wire());
    }

    /// What is written has the length that its function code fixes, and is
    /// read back unchanged, the reserved groups of an error register apart:
    /// they come back zero.
    pub proof fn lemma_round_trip(self)
        ensures
            self.wire().len() == self.function_code().response_len(),
            OrcaHighSpeedResponsePDU::parse(self.wire()) == Ok::<
                OrcaHighSpeedResponsePDU,
                FrameError,
            >(self.normalized()),
            self.normalized().function_code() == self.function_code(),
            self.reserved_clear() ==> self.normalized() == self,
    {
        let w = self.wire();
        assert(w.subrange(1, w.len() as int) =~= self.payload_wire());
        match self {
            OrcaHighSpeedResponsePDU::Manage(payload) => payload.lemma_round_trip(),
            OrcaHighSpeedResponsePDU::Command(payload) => payload.lemma_round_trip(),
            OrcaHighSpeedResponsePDU::Read(payload) => payload.lemma_round_trip(),
            OrcaHighSpeedResponsePDU::Write(payload) => payload.lemma_round_trip(),
        }
    }
}

/// A request frame: the address of the motor, a PDU, and the checksum of
/// both.
///
/// `new` computes the checksum, so that a frame built by it is well formed;
/// `well_formed` tells whether the checksum a frame carries fits its other
/// two fields.
#[derive(Debug, PartialEq, Eq, Clone, Copy, Structural)]
pub struct OrcaHighSpeedRequestADU {
    pub slave_address: u8,
    pub pdu: OrcaHighSpeedRequestPDU,
    pub crc: u16,
}

impl OrcaHighSpeedRequestADU {
    /// The bytes that the checksum covers: the address, then the PDU.
    pub open spec fn covered(self) -> Seq<u8> {
        seq![self.slave_address] + self.pdu.wire()
    }

    /// True when the frame carries the checksum of its address and PDU.
    pub open spec fn well_formed(self) -> bool {
        self.crc == crc16_modbus(self.covered())
    }

    /// The bytes of the frame: address, PDU, and the checksum low byte first.
    pub open spec fn wire(self) -> Seq<u8> {
        self.covered() + u16_le(self.crc)
    }

    /// The frame that `bytes` holds. The address, the PDU and the two bytes
    /// after it are read from the start; the checksum is tested on the whole
    /// of `bytes`, whose last two bytes must be the checksum of the rest.
    pub open spec fn parse(bytes: Seq<u8>) -> Result<OrcaHighSpeedRequestADU, FrameError> {
        if bytes.len() < 1 {
            Err(FrameError::Truncated)
        } else {
            match OrcaHighSpeedRequestPDU::parse(bytes.subrange(1, bytes.len() as int)) {
                Err(e) => Err(e),
                Ok(pdu) => {
                    let end = 1 + pdu.function_code().request_len();
                    if bytes.len() < end + 2 {
                        Err(FrameError::Truncated)
                    } else if !crc_trailer_ok(bytes) {
                        Err(FrameError::ChecksumMismatch)
                    } else {
                        Ok(
                            OrcaHighSpeedRequestADU {
                                slave_address: bytes[0],
                                pdu,
                                crc: u16_le_at(bytes, end as int),
                            },
                        )
                    }
                },
            }
        }
    }

    /// Builds the frame for `pdu` addressed to `slave_address`, with the
    /// checksum of both.
    pub fn new(slave_address: u8, pdu: OrcaHighSpeedRequestPDU) -> (adu: OrcaHighSpeedRequestADU)
        ensures
            adu.slave_address == slave_address,
            adu.pdu == pdu,
            adu.well_formed(),
    {
        let mut covered: Vec<u8> = Vec::new();
        covered.push(slave_address);
        pdu.write(&mut covered);
        assert(covered@ =~= seq![slave_address] + pdu.wire());
        let crc: u16 = modbus_checksum(covered.as_slice());
        OrcaHighSpeedRequestADU { slave_address, pdu, crc }
    }

    /// The bytes of the frame, as they go on the wire.
    pub fn to_vec(&self) -> (bytes: Vec<u8>)
        ensures
            bytes@ == self.wire(),
    {
        let mut bytes: Vec<u8> = Vec::new();
        bytes.push(self.slave_address);
        self.pdu.write(&mut bytes);
        push_u16_le(&mut bytes, self.crc);
        assert(bytes@ =~= self.wire());
        bytes
    }

    /// Reads a frame from `bytes` and tests its checksum.
    ///
    /// Fails with `Truncated` where the bytes end before the frame does, with
    /// `UnknownFunctionCode` or `UnknownSubFunctionCode` where a code names
    /// nothing, and with `ChecksumMismatch` where the fields can be read but
    /// the last two bytes are not the checksum of the bytes before them.
    pub fn from_bytes(bytes: &[u8]) -> (r: Result<OrcaHighSpeedRequestADU, FrameError>)
        ensures
            r == OrcaHighSpeedRequestADU::parse(bytes@),
    {
        let len: usize = bytes.len();
        if len < 1 {
            return Err(FrameError::Truncated);
        }
        let pdu = match OrcaHighSpeedRequestPDU::from_bytes(slice_subrange(bytes, 1, len)) {
            Ok(pdu) => pdu,
            Err(e) => {
                return Err(e);
            },
        };
        let end: usize = 1 + pdu.code().request_pdu_len();
        if len < end + 2 {
            return Err(FrameError::Truncated);
        }
        if !check_adu_crc(bytes) {
            return Err(FrameError::ChecksumMismatch);
        }
        Ok(OrcaHighSpeedRequestADU { slave_address: bytes[0], pdu, crc: read_u16_le(bytes, end) })
    }

    /// The length of the reply to this request: one address byte, the
    /// response PDU that the function code fixes, and two checksum bytes.
    pub open spec fn expected_response_len(self) -> nat {
        1 + self.pdu.function_code().response_len() + 2
    }

    /// The number of bytes to read back after sending this request.
    pub fn num_response_bytes(&self) -> (n: usize)
        ensures
            n == self.expected_response_len(),
            n == match self.pdu {
                OrcaHighSpeedRequestPDU::Manage(_) => 12nat,
                OrcaHighSpeedRequestPDU::Command(_) => 19nat,
                OrcaHighSpeedRequestPDU::Read(_) => 24nat,
                OrcaHighSpeedRequestPDU::Write(_) => 20nat,
            },
    {
        1 + self.pdu.code().response_pdu_len() + 2
    }

    /// A well-formed request frame is read back from its own bytes exactly as
    /// it was, checksum included.
    pub proof fn lemma_round_trip(self)
        requires
            self.well_formed(),
        ensures
            self.wire().len() == 1 + self.pdu.function_code().request_len() + 2,
            crc_trailer_ok(self.wire()),
            OrcaHighSpeedRequestADU::parse(self.wire()) == Ok::<
                OrcaHighSpeedRequestADU,
                FrameError,
            >(self),
    {
        let w = self.wire();
        let end: int = 1 + self.pdu.function_code().request_len() as int;
        self.pdu.lemma_round_trip();
        lemma_parse_ignores_tail_request(self.pdu, u16_le(self.crc));
        assert(w.subrange(1, w.len() as int) =~= self.pdu.wire() + u16_le(self.crc));
        assert(w.subrange(0, w.len() - 2) =~= self.covered());
        assert(w.subrange(end, end + 2) =~= u16_le(self.crc));
        lemma_u16_le_round_trip(self.crc, w, end);
        lemma_u16_le_round_trip(self.crc, w, w.len() - 2);
    }
}

/// A response frame: the address of the motor, a PDU, and the checksum of
/// both.
///
/// `new` computes the checksum, so that a frame built by it is well formed;
/// `well_formed` tells whether the checksum a frame carries fits its other
/// two fields.
#[derive(Debug, PartialEq, Eq, Clone, Copy, Structural)]
pub struct OrcaHighSpeedResponseADU {
    pub slave_address: u8,
    pub pdu: OrcaHighSpeedResponsePDU,
    pub crc: u16,
}

impl OrcaHighSpeedResponseADU {
    /// The bytes that the checksum covers: the address, then the PDU.
    pub open spec fn covered(self) -> Seq<u8> {
        seq![self.slave_address] + self.pdu.wire()
    }

    /// True when the frame carries the checksum of its address and PDU.
    pub open spec fn well_formed(self) -> bool {
        self.crc == crc16_modbus(self.covered())
    }

    /// The bytes of the frame: address, PDU, and the checksum low byte first.
    pub open spec fn wire(self) -> Seq<u8> {
        self.covered() + u16_le(self.crc)
    }

    /// The frame that `bytes` holds. The address, the PDU and the two bytes
    /// after it are read from the start; the checksum is tested on the whole
    /// of `bytes`, whose last two bytes must be the checksum of the rest.
    pub open spec fn parse(bytes: Seq<u8>) -> Result<OrcaHighSpeedResponseADU, FrameError> {
        if bytes.len() < 1 {
            Err(FrameError::Truncated)
        } else {
            match OrcaHighSpeedResponsePDU::parse(bytes.subrange(1, bytes.len() as int)) {
                Err(e) => Err(e),
                Ok(pdu) => {
                    let end = 1 + pdu.function_code().response_len();
                    if bytes.len() < end + 2 {
                        Err(FrameError::Truncated)
                    } else if !crc_trailer_ok(bytes) {
                        Err(FrameError::ChecksumMismatch)
                    } else {
                        Ok(
                            OrcaHighSpeedResponseADU {
                                slave_address: bytes[0],
                                pdu,
                                crc: u16_le_at(bytes, end as int),
                            },
                        )
                    }
                },
            }
        }
    }

    /// Builds the frame for `pdu` addressed to `slave_address`, with the
    /// checksum of both.
    pub fn new(slave_address: u8, pdu: OrcaHighSpeedResponsePDU) -> (adu: OrcaHighSpeedResponseADU)
        ensures
            adu.slave_address == slave_address,
            adu.pdu == pdu,
            adu.well_formed(),
    {
        let mut covered: Vec<u8> = Vec::new();
        covered.push(slave_address);
        pdu.write(&mut covered);
        assert(covered@ =~= seq![slave_address] + pdu.wire());
        let crc: u16 = modbus_checksum(covered.as_slice());
        OrcaHighSpeedResponseADU { slave_address, pdu, crc }
    }

    /// The bytes of the frame, as they go on the wire.
    pub fn to_vec(&self) -> (bytes: Vec<u8>)
        ensures
            bytes@ == self.wire(),
    {
        let mut bytes: Vec<u8> = Vec::new();
        bytes.push(self.slave_address);
        self.pdu.write(&mut bytes);
        push_u16_le(&mut bytes, self.crc);
        assert(bytes@ =~= self.wire());
        bytes
    }

    /// Reads a frame from `bytes` and tests its checksum.
    ///
    /// Fails with `Truncated` where the bytes end before the frame does, with
    /// `UnknownFunctionCode` or `UnknownSubFunctionCode` where a code names
    /// nothing, and with `ChecksumMismatch` where the fields can be read but
    /// the last two bytes are not the checksum of the bytes before them.
    pub fn from_bytes(bytes: &[u8]) -> (r: Result<OrcaHighSpeedResponseADU, FrameError>)
        ensures
            r == OrcaHighSpeedResponseADU::parse(bytes@),
    {
        let len: usize = bytes.len();
        if len < 1 {
            return Err(FrameError::Truncated);
        }
        let pdu = match OrcaHighSpeedResponsePDU::from_bytes(slice_subrange(bytes, 1, len)) {
            Ok(pdu) => pdu,
            Err(e) => {
                return Err(e);
            },
        };
        let end: usize = 1 + pdu.code().response_pdu_len();
        if len < end + 2 {
            return Err(FrameError::Truncated);
        }
        if !check_adu_crc(bytes) {
            return Err(FrameError::ChecksumMismatch);
        }
        Ok(OrcaHighSpeedResponseADU { slave_address: bytes[0], pdu, crc: read_u16_le(bytes, end) })
    }

    /// The frame as it is read back from its own bytes: the same, but for the
    /// reserved groups of an error register, which come back zero.
    pub open spec fn normalized(self) -> OrcaHighSpeedResponseADU {
        OrcaHighSpeedResponseADU {
            slave_address: self.slave_address,
            pdu: self.pdu.normalized(),
            crc: self.crc,
        }
    }

    /// A well-formed response frame is read back from its own bytes as it
    /// was, checksum included; only reserved groups of an error register that
    /// were not zero come back zero.
    pub proof fn lemma_round_trip(self)
        requires
            self.well_formed(),
        ensures
            self.wire().len() == 1 + self.pdu.function_code().response_len() + 2,
            crc_trailer_ok(self.wire()),
            OrcaHighSpeedResponseADU::parse(self.wire()) == Ok::<
                OrcaHighSpeedResponseADU,
                FrameError,
            >(self.normalized()),
            self.pdu.reserved_clear() ==> self.normalized() == self,
    {
        let w = self.wire();
        let end: int = 1 + self.pdu.function_code().response_len() as int;
        self.pdu.lemma_round_trip();
        lemma_parse_ignores_tail_response(self.pdu, u16_le(self.crc));
        assert(w.subrange(1, w.len() as int) =~= self.pdu.wire() + u16_le(self.crc));
        assert(w.subrange(0, w.len() - 2) =~= self.covered());
        assert(w.subrange(end, end + 2) =~= u16_le(self.crc));
        lemma_u16_le_round_trip(self.crc, w, end);
        lemma_u16_le_round_trip(self.crc, w, w.len() - 2);
    }
}

/// Only the bytes of the PDU are read: two buffers that open with the same
/// function code and agree on as many bytes as a request PDU with that code
/// has hold the same PDU.
pub proof fn lemma_request_parse_reads_prefix(a: Seq<u8>, b: Seq<u8>)
    requires
        a.len() >= 1,
        b.len() >= 1,
        a[0] == b[0],
        FunctionCode::of_byte(a[0]) matches Some(code) ==> same_prefix(
            a,
            b,
            code.request_len() as int,
        ),
    ensures
        OrcaHighSpeedRequestPDU::parse(a) == OrcaHighSpeedRequestPDU::parse(b),
{
    let rest_a = a.subrange(1, a.len() as int);
    let rest_b = b.subrange(1, b.len() as int);
    match FunctionCode::of_byte(a[0]) {
        None => {},
        Some(code) => {
            let n = code.request_len() as int;
            assert forall|j: int| 0 <= j < n - 1 implies rest_a[j] == rest_b[j] by {
                assert(rest_a[j] == a[j + 1]);
                assert(rest_b[j] == b[j + 1]);
            }
            assert(same_prefix(rest_a, rest_b, n - 1));
            match code {
                FunctionCode::Manage => {
                    ManageHighSpeedRequestPDUPayload::lemma_parse_reads_prefix(rest_a, rest_b);
                },
                FunctionCode::Command => {
                    MotorCommandRequestPDUPayload::lemma_parse_reads_prefix(rest_a, rest_b);
                },
                FunctionCode::Read => {
                    MotorReadRequestPDUPayload::lemma_parse_reads_prefix(rest_a, rest_b);
                },
                FunctionCode::Write => {
                    MotorWriteRequestPDUPayload::lemma_parse_reads_prefix(rest_a, rest_b);
                },
            }
        },
    }
}

/// Bytes after a request PDU do not change how the PDU is read.
pub proof fn lemma_parse_ignores_tail_request(pdu: OrcaHighSpeedRequestPDU, tail: Seq<u8>)
    ensures
        OrcaHighSpeedRequestPDU::parse(pdu.wire() + tail) == OrcaHighSpeedRequestPDU::parse(
            pdu.wire(),
        ),
{
    pdu.lemma_round_trip();
    pdu.function_code().lemma_byte_round_trip();
    let w = pdu.wire();
    let long = w + tail;
    assert(long[0] == w[0]);
    assert forall|j: int| 0 <= j < w.len() implies long[j] == w[j] by {}
    lemma_request_parse_reads_prefix(long, w);
}

/// Only the bytes of the PDU are read: two buffers that open with the same
/// function code and agree on as many bytes as a response PDU with that code
/// has hold the same PDU.
pub proof fn lemma_response_parse_reads_prefix(a: Seq<u8>, b: Seq<u8>)
    requires
        a.len() >= 1,
        b.len() >= 1,
        a[0] == b[0],
        FunctionCode::of_byte(a[0]) matches Some(code) ==> same_prefix(
            a,
            b,
            code.response_len() as int,
        ),
    ensures
        OrcaHighSpeedResponsePDU::parse(a) == OrcaHighSpeedResponsePDU::parse(b),
{
    let rest_a = a.subrange(1, a.len() as int);
    let rest_b = b.subrange(1, b.len() as int);
    match FunctionCode::of_byte(a[0]) {
        None => {},
        Some(code) => {
            let n = code.response_len() as int;
            assert forall|j: int| 0 <= j < n - 1 implies rest_a[j] == rest_b[j] by {
                assert(rest_a[j] == a[j + 1]);
                assert(rest_b[j] == b[j + 1]);
            }
            assert(same_prefix(rest_a, rest_b, n - 1));
            match code {
                FunctionCode::Manage => {
                    ManageHighSpeedResponsePDUPayload::lemma_parse_reads_prefix(rest_a, rest_b);
                },
                FunctionCode::Command => {
                    MotorCommandResponsePDUPayload::lemma_parse_reads_prefix(rest_a, rest_b);
                },
                FunctionCode::Read => {
                    MotorReadResponsePDUPayload::lemma_parse_reads_prefix(rest_a, rest_b);
                },
                FunctionCode::Write => {
                    MotorWriteResponsePDUPayload::lemma_parse_reads_prefix(rest_a, rest_b);
                },
            }
        },
    }
}

/// Bytes after a response PDU do not change how the PDU is read.
pub proof fn lemma_parse_ignores_tail_response(pdu: OrcaHighSpeedResponsePDU, tail: Seq<u8>)
    ensures
        OrcaHighSpeedResponsePDU::parse(pdu.wire() + tail) == OrcaHighSpeedResponsePDU::parse(
            pdu.wire(),
        ),
{
    pdu.lemma_round_trip();
    pdu.function_code().lemma_byte_round_trip();
    let w = pdu.wire();
    let long = w + tail;
    assert(long[0] == w[0]);
    assert forall|j: int| 0 <= j < w.len() implies long[j] == w[j] by {}
    lemma_response_parse_reads_prefix(long, w);
}

/// The number of bytes that a request tells its sender to read back is the
/// length of every response frame with the same function code.
pub proof fn lemma_response_length(
    request: OrcaHighSpeedRequestADU,
    response: OrcaHighSpeedResponseADU,
)
    requires
        response.pdu.function_code() == request.pdu.function_code(),
    ensures
        response.wire().len() == request.expected_response_len(),
{
    response.pdu.lemma_round_trip();
}

/// A response frame that is read from as many bytes as its request told the
/// sender to read back, and that has the function code of the request, fills
/// those bytes: its checksum is their last two bytes.
pub proof fn lemma_reply_fills_expected_len(request: OrcaHighSpeedRequestADU, reply: Seq<u8>)
    requires
        reply.len() == request.expected_response_len(),
        OrcaHighSpeedResponseADU::parse(reply) is Ok,
        OrcaHighSpeedResponseADU::parse(reply).unwrap().pdu.function_code()
            == request.pdu.function_code(),
    ensures
        OrcaHighSpeedResponseADU::parse(reply).unwrap().crc == crc16_modbus(
            reply.subrange(0, reply.len() - 2),
        ),
{
}

/// A Read or Write response whose mode byte names no known mode is read all
/// the same, and its mode is the default mode.
pub proof fn lemma_unknown_mode_reads_as_default(reply: Seq<u8>)
    requires
        reply.len() >= 3,
        crc_trailer_ok(reply),
        (reply[1] == 0x68 && reply.len() >= 24 && OrcaModeOfOperation::of_byte(reply[6]) is None)
            || (reply[1] == 0x69 && reply.len() >= 20 && OrcaModeOfOperation::of_byte(reply[2])
            is None),
    ensures
        OrcaHighSpeedResponseADU::parse(reply) is Ok,
        match OrcaHighSpeedResponseADU::parse(reply).unwrap().pdu {
            OrcaHighSpeedResponsePDU::Read(payload) => reply[1] == 0x68
                && payload.mode_of_operation == OrcaModeOfOperation::SleepMode,
            OrcaHighSpeedResponsePDU::Write(payload) => reply[1] == 0x69
                && payload.mode_of_operation == OrcaModeOfOperation::SleepMode,
            _ => false,
        },
{
    let pdu_bytes = reply.subrange(1, reply.len() as int);
    let payload_bytes = pdu_bytes.subrange(1, pdu_bytes.len() as int);
    assert(pdu_bytes[0] == reply[1]);
    if reply[1] == 0x68 {
        assert(payload_bytes[4] == reply[6]);
    } else {
        assert(payload_bytes[0] == reply[2]);
    }
}

/// A well-formed request frame in which any single bit before the checksum
/// is inverted fails the checksum test, and is read as no frame.
pub proof fn lemma_corrupted_request_rejected(
    request: OrcaHighSpeedRequestADU,
    index: int,
    bit: u8,
)
    requires
        request.well_formed(),
        0 <= index < request.wire().len() - 2,
        bit < 8,
    ensures
        !crc_trailer_ok(flip_bit(request.wire(), index, bit)),
        OrcaHighSpeedRequestADU::parse(flip_bit(request.wire(), index, bit)) is Err,
{
    request.lemma_round_trip();
    lemma_bit_flip_breaks_trailer(request.wire(), index, bit);
}

/// A well-formed response frame in which any single bit before the checksum
/// is inverted fails the checksum test, and is read as no frame.
pub proof fn lemma_corrupted_response_rejected(
    response: OrcaHighSpeedResponseADU,
    index: int,
    bit: u8,
)
    requires
        response.well_formed(),
        0 <= index < response.wire().len() - 2,
        bit < 8,
    ensures
        !crc_trailer_ok(flip_bit(response.wire(), index, bit)),
        OrcaHighSpeedResponseADU::parse(flip_bit(response.wire(), index, bit)) is Err,
{
    response.lemma_round_trip();
    lemma_bit_flip_breaks_trailer(response.wire(), index, bit);
}

} // verus!
