//! The register catalogue of the motor.
//!
//! A register is a 16-bit word at an address. Most registers hold one number.
//! A few pack flags or a mode into the word, bit 0 first, beside reserved
//! bits: those convert to and from their word with `to_word` and `from_word`,
//! which leave the reserved bits zero. Every register can be read and
//! written. `Register` lists them all and finds the one at an address.
//!
//! The three enums of this file each come with two readings of a byte.
//! `try_from` refuses a byte that names no variant. `from_primitive` reads a
//! register field, where every byte must mean something: a byte that names
//! no variant reads as the last variant.

use crate::bits::flag_at;
use crate::bits::flag_mask;
use crate::bits::has_flag;
use crate::bits::mask_if;
use vstd::prelude::*;
use vstd::std_specs::convert::FromSpecImpl;
use vstd::std_specs::convert::TryFromSpecImpl;

verus! {

/// A byte that names no variant of the enum it was read for.
#[derive(Debug, PartialEq, Eq, Clone, Copy, Structural)]
pub struct UnknownValue(pub u8);

/// The operating mode of the motor.
#[derive(Debug, PartialEq, Eq, Clone, Copy, Structural)]
pub enum OrcaModeOfOperation {
    SleepMode,
    ForceMode,
    PositionMode,
    HapticMode,
    KineticMode,
    PulseWidthMode,
    AutoZeroingMode,
}

impl OrcaModeOfOperation {
    /// The value that stands for the mode in a register.
    pub open spec fn byte(self) -> u8 {
        match self {
            OrcaModeOfOperation::SleepMode => 1,
            OrcaModeOfOperation::ForceMode => 2,
            OrcaModeOfOperation::PositionMode => 3,
            OrcaModeOfOperation::HapticMode => 4,
            OrcaModeOfOperation::KineticMode => 5,
            OrcaModeOfOperation::PulseWidthMode => 11,
            OrcaModeOfOperation::AutoZeroingMode => 55,
        }
    }

    /// The mode that a value names, if it names one.
    pub open spec fn of_byte(value: u8) -> Option<OrcaModeOfOperation> {
        if value == 1 {
            Some(OrcaModeOfOperation::SleepMode)
        } else if value == 2 {
            Some(OrcaModeOfOperation::ForceMode)
        } else if value == 3 {
            Some(OrcaModeOfOperation::PositionMode)
        } else if value == 4 {
            Some(OrcaModeOfOperation::HapticMode)
        } else if value == 5 {
            Some(OrcaModeOfOperation::KineticMode)
        } else if value == 11 {
            Some(OrcaModeOfOperation::PulseWidthMode)
        } else if value == 55 {
            Some(OrcaModeOfOperation::AutoZeroingMode)
        } else {
            None
        }
    }

    /// The mode that a value names, or the default mode where it names
    /// none.
    pub open spec fn of_byte_or_default(value: u8) -> OrcaModeOfOperation {
        match OrcaModeOfOperation::of_byte(value) {
            Some(mode) => mode,
            None => OrcaModeOfOperation::SleepMode,
        }
    }

    /// The mode that a register field holds: the mode that the value
    /// names, and `AutoZeroingMode` for every value that names none.
    pub open spec fn of_field(value: u8) -> OrcaModeOfOperation {
        match OrcaModeOfOperation::of_byte(value) {
            Some(mode) => mode,
            None => OrcaModeOfOperation::AutoZeroingMode,
        }
    }

    /// The mode that `value` names; a value that names none gives the
    /// default mode.
    pub fn from_byte_or_default(value: u8) -> (mode: OrcaModeOfOperation)
        ensures
            mode == OrcaModeOfOperation::of_byte_or_default(value),
    {
        match OrcaModeOfOperation::try_from(value) {
            Ok(mode) => mode,
            Err(_) => OrcaModeOfOperation::default(),
        }
    }

    /// Reads a register field: the mode that `value` names, and
    /// `AutoZeroingMode` for every value that names none.
    pub fn from_primitive(value: u8) -> (mode: OrcaModeOfOperation)
        ensures
            mode == OrcaModeOfOperation::of_field(value),
    {
        match OrcaModeOfOperation::try_from(value) {
            Ok(mode) => mode,
            Err(_) => OrcaModeOfOperation::AutoZeroingMode,
        }
    }

    /// The value that stands for the mode in a register.
    pub fn into_primitive(self) -> (value: u8)
        ensures
            value == self.byte(),
    {
        u8::from(self)
    }

    /// Every mode is found again from its value.
    pub proof fn lemma_byte_round_trip(self)
        ensures
            OrcaModeOfOperation::of_byte(self.byte()) == Some(self),
            OrcaModeOfOperation::of_field(self.byte()) == self,
    {
    }
}

impl Default for OrcaModeOfOperation {
    fn default() -> (mode: OrcaModeOfOperation)
        ensures
            mode == OrcaModeOfOperation::SleepMode,
    {
        OrcaModeOfOperation::SleepMode
    }
}

impl TryFrom<u8> for OrcaModeOfOperation {
    type Error = UnknownValue;

    fn try_from(value: u8) -> (r: Result<OrcaModeOfOperation, UnknownValue>) {
        if value == 1 {
            Ok(OrcaModeOfOperation::SleepMode)
        } else if value == 2 {
            Ok(OrcaModeOfOperation::ForceMode)
        } else if value == 3 {
            Ok(OrcaModeOfOperation::PositionMode)
        } else if value == 4 {
            Ok(OrcaModeOfOperation::HapticMode)
        } else if value == 5 {
            Ok(OrcaModeOfOperation::KineticMode)
        } else if value == 11 {
            Ok(OrcaModeOfOperation::PulseWidthMode)
        } else if value == 55 {
            Ok(OrcaModeOfOperation::AutoZeroingMode)
        } else {
            Err(UnknownValue(value))
        }
    }
}

impl TryFromSpecImpl<u8> for OrcaModeOfOperation {
    open spec fn obeys_try_from_spec() -> bool {
        true
    }

    open spec fn try_from_spec(value: u8) -> Result<OrcaModeOfOperation, UnknownValue> {
        match OrcaModeOfOperation::of_byte(value) {
            Some(mode) => Ok(mode),
            None => Err(UnknownValue(value)),
        }
    }
}

impl From<OrcaModeOfOperation> for u8 {
    fn from(mode: OrcaModeOfOperation) -> (value: u8) {
        match mode {
            OrcaModeOfOperation::SleepMode => 1,
            OrcaModeOfOperation::ForceMode => 2,
            OrcaModeOfOperation::PositionMode => 3,
            OrcaModeOfOperation::HapticMode => 4,
            OrcaModeOfOperation::KineticMode => 5,
            OrcaModeOfOperation::PulseWidthMode => 11,
            OrcaModeOfOperation::AutoZeroingMode => 55,
        }
    }
}

impl FromSpecImpl<OrcaModeOfOperation> for u8 {
    open spec fn obeys_from_spec() -> bool {
        true
    }

    open spec fn from_spec(mode: OrcaModeOfOperation) -> u8 {
        mode.byte()
    }
}

/// How the motor finds its zero position.
#[derive(Debug, PartialEq, Eq, Clone, Copy, Structural)]
pub enum OrcaZeroMode {
    NegativeZeroing,
    ManualZeroing,
    AutoZeroEnabled,
    AutoZeroOnBoot,
    IOSHAutoZeroing,
}

impl OrcaZeroMode {
    /// The value that stands for the mode in a register.
    pub open spec fn byte(self) -> u8 {
        match self {
            OrcaZeroMode::NegativeZeroing => 0,
            OrcaZeroMode::ManualZeroing => 1,
            OrcaZeroMode::AutoZeroEnabled => 2,
            OrcaZeroMode::AutoZeroOnBoot => 3,
            OrcaZeroMode::IOSHAutoZeroing => 4,
        }
    }

    /// The mode that a value names, if it names one.
    pub open spec fn of_byte(value: u8) -> Option<OrcaZeroMode> {
        if value == 0 {
            Some(OrcaZeroMode::NegativeZeroing)
        } else if value == 1 {
            Some(OrcaZeroMode::ManualZeroing)
        } else if value == 2 {
            Some(OrcaZeroMode::AutoZeroEnabled)
        } else if value == 3 {
            Some(OrcaZeroMode::AutoZeroOnBoot)
        } else if value == 4 {
            Some(OrcaZeroMode::IOSHAutoZeroing)
        } else {
            None
        }
    }

    /// The mode that a register field holds: the mode that the value
    /// names, and `IOSHAutoZeroing` for every value that names none.
    pub open spec fn of_field(value: u8) -> OrcaZeroMode {
        match OrcaZeroMode::of_byte(value) {
            Some(mode) => mode,
            None => OrcaZeroMode::IOSHAutoZeroing,
        }
    }

    /// Reads a register field: the mode that `value` names, and
    /// `IOSHAutoZeroing` for every value that names none.
    pub fn from_primitive(value: u8) -> (mode: OrcaZeroMode)
        ensures
            mode == OrcaZeroMode::of_field(value),
    {
        match OrcaZeroMode::try_from(value) {
            Ok(mode) => mode,
            Err(_) => OrcaZeroMode::IOSHAutoZeroing,
        }
    }

    /// The value that stands for the mode in a register.
    pub fn into_primitive(self) -> (value: u8)
        ensures
            value == self.byte(),
    {
        u8::from(self)
    }

    /// Every mode is found again from its value.
    pub proof fn lemma_byte_round_trip(self)
        ensures
            OrcaZeroMode::of_byte(self.byte()) == Some(self),
            OrcaZeroMode::of_field(self.byte()) == self,
    {
    }
}

impl Default for OrcaZeroMode {
    fn default() -> (mode: OrcaZeroMode)
        ensures
            mode == OrcaZeroMode::NegativeZeroing,
    {
        OrcaZeroMode::NegativeZeroing
    }
}

impl TryFrom<u8> for OrcaZeroMode {
    type Error = UnknownValue;

    fn try_from(value: u8) -> (r: Result<OrcaZeroMode, UnknownValue>) {
        if value == 0 {
            Ok(OrcaZeroMode::NegativeZeroing)
        } else if value == 1 {
            Ok(OrcaZeroMode::ManualZeroing)
        } else if value == 2 {
            Ok(OrcaZeroMode::AutoZeroEnabled)
        } else if value == 3 {
            Ok(OrcaZeroMode::AutoZeroOnBoot)
        } else if value == 4 {
            Ok(OrcaZeroMode::IOSHAutoZeroing)
        } else {
            Err(UnknownValue(value))
        }
    }
}

impl TryFromSpecImpl<u8> for OrcaZeroMode {
    open spec fn obeys_try_from_spec() -> bool {
        true
    }

    open spec fn try_from_spec(value: u8) -> Result<OrcaZeroMode, UnknownValue> {
        match OrcaZeroMode::of_byte(value) {
            Some(mode) => Ok(mode),
            None => Err(UnknownValue(value)),
        }
    }
}

impl From<OrcaZeroMode> for u8 {
    fn from(mode: OrcaZeroMode) -> (value: u8) {
        match mode {
            OrcaZeroMode::NegativeZeroing => 0,
            OrcaZeroMode::ManualZeroing => 1,
            OrcaZeroMode::AutoZeroEnabled => 2,
            OrcaZeroMode::AutoZeroOnBoot => 3,
            OrcaZeroMode::IOSHAutoZeroing => 4,
        }
    }
}

impl FromSpecImpl<OrcaZeroMode> for u8 {
    open spec fn obeys_from_spec() -> bool {
        true
    }

    open spec fn from_spec(mode: OrcaZeroMode) -> u8 {
        mode.byte()
    }
}

/// The mode the motor enters once auto-zeroing is done.
#[derive(Debug, PartialEq, Eq, Clone, Copy, Structural)]
pub enum OrcaAutoZeroExitMode {
    SleepMode,
    ForceMode,
    PositionMode,
    HapticMode,
    KineticMode,
    PulseWidthMode,
}

impl OrcaAutoZeroExitMode {
    /// The value that stands for the mode in a register.
    pub open spec fn byte(self) -> u8 {
        match self {
            OrcaAutoZeroExitMode::SleepMode => 1,
            OrcaAutoZeroExitMode::ForceMode => 2,
            OrcaAutoZeroExitMode::PositionMode => 3,
            OrcaAutoZeroExitMode::HapticMode => 4,
            OrcaAutoZeroExitMode::KineticMode => 5,
            OrcaAutoZeroExitMode::PulseWidthMode => 11,
        }
    }

    /// The mode that a value names, if it names one.
    pub open spec fn of_byte(value: u8) -> Option<OrcaAutoZeroExitMode> {
        if value == 1 {
            Some(OrcaAutoZeroExitMode::SleepMode)
        } else if value == 2 {
            Some(OrcaAutoZeroExitMode::ForceMode)
        } else if value == 3 {
            Some(OrcaAutoZeroExitMode::PositionMode)
        } else if value == 4 {
            Some(OrcaAutoZeroExitMode::HapticMode)
        } else if value == 5 {
            Some(OrcaAutoZeroExitMode::KineticMode)
        } else if value == 11 {
            Some(OrcaAutoZeroExitMode::PulseWidthMode)
        } else {
            None
        }
    }

    /// The mode that a register field holds: the mode that the value
    /// names, and `PulseWidthMode` for every value that names none.
    pub open spec fn of_field(value: u8) -> OrcaAutoZeroExitMode {
        match OrcaAutoZeroExitMode::of_byte(value) {
            Some(mode) => mode,
            None => OrcaAutoZeroExitMode::PulseWidthMode,
        }
    }

    /// Reads a register field: the mode that `value` names, and
    /// `PulseWidthMode` for every value that names none.
    pub fn from_primitive(value: u8) -> (mode: OrcaAutoZeroExitMode)
        ensures
            mode == OrcaAutoZeroExitMode::of_field(value),
    {
        match OrcaAutoZeroExitMode::try_from(value) {
            Ok(mode) => mode,
            Err(_) => OrcaAutoZeroExitMode::PulseWidthMode,
        }
    }

    /// The value that stands for the mode in a register.
    pub fn into_primitive(self) -> (value: u8)
        ensures
            value == self.byte(),
    {
        u8::from(self)
    }

    /// Every mode is found again from its value.
    pub proof fn lemma_byte_round_trip(self)
        ensures
            OrcaAutoZeroExitMode::of_byte(self.byte()) == Some(self),
            OrcaAutoZeroExitMode::of_field(self.byte()) == self,
    {
    }
}

impl Default for OrcaAutoZeroExitMode {
    fn default() -> (mode: OrcaAutoZeroExitMode)
        ensures
            mode == OrcaAutoZeroExitMode::SleepMode,
    {
        OrcaAutoZeroExitMode::SleepMode
    }
}

impl TryFrom<u8> for OrcaAutoZeroExitMode {
    type Error = UnknownValue;

    fn try_from(value: u8) -> (r: Result<OrcaAutoZeroExitMode, UnknownValue>) {
        if value == 1 {
            Ok(OrcaAutoZeroExitMode::SleepMode)
        } else if value == 2 {
            Ok(OrcaAutoZeroExitMode::ForceMode)
        } else if value == 3 {
            Ok(OrcaAutoZeroExitMode::PositionMode)
        } else if value == 4 {
            Ok(OrcaAutoZeroExitMode::HapticMode)
        } else if value == 5 {
            Ok(OrcaAutoZeroExitMode::KineticMode)
        } else if value == 11 {
            Ok(OrcaAutoZeroExitMode::PulseWidthMode)
        } else {
            Err(UnknownValue(value))
        }
    }
}

impl TryFromSpecImpl<u8> for OrcaAutoZeroExitMode {
    open spec fn obeys_try_from_spec() -> bool {
        true
    }

    open spec fn try_from_spec(value: u8) -> Result<OrcaAutoZeroExitMode, UnknownValue> {
        match OrcaAutoZeroExitMode::of_byte(value) {
            Some(mode) => Ok(mode),
            None => Err(UnknownValue(value)),
        }
    }
}

impl From<OrcaAutoZeroExitMode> for u8 {
    fn from(mode: OrcaAutoZeroExitMode) -> (value: u8) {
        match mode {
            OrcaAutoZeroExitMode::SleepMode => 1,
            OrcaAutoZeroExitMode::ForceMode => 2,
            OrcaAutoZeroExitMode::PositionMode => 3,
            OrcaAutoZeroExitMode::HapticMode => 4,
            OrcaAutoZeroExitMode::KineticMode => 5,
            OrcaAutoZeroExitMode::PulseWidthMode => 11,
        }
    }
}

impl FromSpecImpl<OrcaAutoZeroExitMode> for u8 {
    open spec fn obeys_from_spec() -> bool {
        true
    }

    open spec fn from_spec(mode: OrcaAutoZeroExitMode) -> u8 {
        mode.byte()
    }
}

/// The registers of the catalogue, by name. Each is one 16-bit word at its
/// address, and each can be read and written.
#[derive(Debug, PartialEq, Eq, Clone, Copy, Structural)]
pub enum Register {
    CtrlReg0,
    CtrlReg1,
    CtrlReg2,
    CtrlReg3,
    CtrlReg4,
    KinSwTrig,
    ForceCmdL,
    ForceCmdH,
    PosCmdL,
    PosCmdH,
    CCPGain,
    CCIGain,
    CCFGain,
    CCMaxDuty,
    PCPGain,
    PCIGain,
    PCDVGain,
    PCDEGain,
    PCFSatuL,
    PCFSatuH,
    UserMaxTemp,
    UserMaxForceL,
    UserMaxForceH,
    UserMaxPower,
    SafetyDGain,
    UserMaxCoilTemp,
    TempErrHysteresis,
    PCSoftstartPeriod,
    PosSign,
    LogPeriod,
    UserCommsTimeout,
    UsrMbBaudLo,
    UsrMbBaudHi,
    ForceFilt,
    PosFilt,
    UsrMbDelay,
    UsrMbAddr,
    ZeroMode,
    AutoZeroForceN,
    AutoZeroExitMode,
    MBRS485Mode,
    MbForceFilter,
    MbPosFilter,
    AutoZeroSpeedMmps,
    PwmTimeoutMs,
    PwmTimeConstMs,
    PwmMinPosL,
    PwmMinPosH,
    PwmMaxPosL,
    PwmMaxPosH,
    PwmServoType,
    ModeOfOperation,
    CalibrationStatus,
    KinematicStatus,
    BoardTemp,
    VddFinal,
    ShaftPosUmL,
    ShaftPosUmH,
    ShaftSpeedMmpsL,
    ShaftSpeedMmpsH,
    ShaftAccelMmpssL,
    ShaftAccelMmpssH,
    ForceL,
    ForceH,
    Power,
    HbaCurrent,
    HbbCurrent,
    HbcCurrent,
    HbdCurrent,
    AvgPower,
    CoilTemp,
}

impl Register {
    /// The address of the register.
    pub open spec fn address_of(self) -> u16 {
        match self {
            Register::CtrlReg0 => 0,
            Register::CtrlReg1 => 1,
            Register::CtrlReg2 => 2,
            Register::CtrlReg3 => 3,
            Register::CtrlReg4 => 4,
            Register::KinSwTrig => 9,
            Register::ForceCmdL => 28,
            Register::ForceCmdH => 29,
            Register::PosCmdL => 30,
            Register::PosCmdH => 31,
            Register::CCPGain => 129,
            Register::CCIGain => 130,
            Register::CCFGain => 131,
            Register::CCMaxDuty => 132,
            Register::PCPGain => 133,
            Register::PCIGain => 134,
            Register::PCDVGain => 135,
            Register::PCDEGain => 136,
            Register::PCFSatuL => 137,
            Register::PCFSatuH => 138,
            Register::UserMaxTemp => 139,
            Register::UserMaxForceL => 140,
            Register::UserMaxForceH => 141,
            Register::UserMaxPower => 142,
            Register::SafetyDGain => 143,
            Register::UserMaxCoilTemp => 147,
            Register::TempErrHysteresis => 148,
            Register::PCSoftstartPeriod => 150,
            Register::PosSign => 152,
            Register::LogPeriod => 162,
            Register::UserCommsTimeout => 163,
            Register::UsrMbBaudLo => 164,
            Register::UsrMbBaudHi => 165,
            Register::ForceFilt => 166,
            Register::PosFilt => 167,
            Register::UsrMbDelay => 168,
            Register::UsrMbAddr => 169,
            Register::ZeroMode => 171,
            Register::AutoZeroForceN => 172,
            Register::AutoZeroExitMode => 173,
            Register::MBRS485Mode => 174,
            Register::MbForceFilter => 175,
            Register::MbPosFilter => 176,
            Register::AutoZeroSpeedMmps => 177,
            Register::PwmTimeoutMs => 178,
            Register::PwmTimeConstMs => 179,
            Register::PwmMinPosL => 180,
            Register::PwmMinPosH => 181,
            Register::PwmMaxPosL => 182,
            Register::PwmMaxPosH => 183,
            Register::PwmServoType => 184,
            Register::ModeOfOperation => 317,
            Register::CalibrationStatus => 318,
            Register::KinematicStatus => 319,
            Register::BoardTemp => 336,
            Register::VddFinal => 338,
            Register::ShaftPosUmL => 342,
            Register::ShaftPosUmH => 343,
            Register::ShaftSpeedMmpsL => 344,
            Register::ShaftSpeedMmpsH => 345,
            Register::ShaftAccelMmpssL => 346,
            Register::ShaftAccelMmpssH => 347,
            Register::ForceL => 348,
            Register::ForceH => 349,
            Register::Power => 350,
            Register::HbaCurrent => 351,
            Register::HbbCurrent => 352,
            Register::HbcCurrent => 353,
            Register::HbdCurrent => 354,
            Register::AvgPower => 355,
            Register::CoilTemp => 356,
        }
    }

    /// The register at an address, if the catalogue has one there.
    pub open spec fn at(address: u16) -> Option<Register> {
        if address == 0 {
            Some(Register::CtrlReg0)
        } else if address == 1 {
            Some(Register::CtrlReg1)
        } else if address == 2 {
            Some(Register::CtrlReg2)
        } else if address == 3 {
            Some(Register::CtrlReg3)
        } else if address == 4 {
            Some(Register::CtrlReg4)
        } else if address == 9 {
            Some(Register::KinSwTrig)
        } else if address == 28 {
            Some(Register::ForceCmdL)
        } else if address == 29 {
            Some(Register::ForceCmdH)
        } else if address == 30 {
            Some(Register::PosCmdL)
        } else if address == 31 {
            Some(Register::PosCmdH)
        } else if address == 129 {
            Some(Register::CCPGain)
        } else if address == 130 {
            Some(Register::CCIGain)
        } else if address == 131 {
            Some(Register::CCFGain)
        } else if address == 132 {
            Some(Register::CCMaxDuty)
        } else if address == 133 {
            Some(Register::PCPGain)
        } else if address == 134 {
            Some(Register::PCIGain)
        } else if address == 135 {
            Some(Register::PCDVGain)
        } else if address == 136 {
            Some(Register::PCDEGain)
        } else if address == 137 {
            Some(Register::PCFSatuL)
        } else if address == 138 {
            Some(Register::PCFSatuH)
        } else if address == 139 {
            Some(Register::UserMaxTemp)
        } else if address == 140 {
            Some(Register::UserMaxForceL)
        } else if address == 141 {
            Some(Register::UserMaxForceH)
        } else if address == 142 {
            Some(Register::UserMaxPower)
        } else if address == 143 {
            Some(Register::SafetyDGain)
        } else if address == 147 {
            Some(Register::UserMaxCoilTemp)
        } else if address == 148 {
            Some(Register::TempErrHysteresis)
        } else if address == 150 {
            Some(Register::PCSoftstartPeriod)
        } else if address == 152 {
            Some(Register::PosSign)
        } else if address == 162 {
            Some(Register::LogPeriod)
        } else if address == 163 {
            Some(Register::UserCommsTimeout)
        } else if address == 164 {
            Some(Register::UsrMbBaudLo)
        } else if address == 165 {
            Some(Register::UsrMbBaudHi)
        } else if address == 166 {
            Some(Register::ForceFilt)
        } else if address == 167 {
            Some(Register::PosFilt)
        } else if address == 168 {
            Some(Register::UsrMbDelay)
        } else if address == 169 {
            Some(Register::UsrMbAddr)
        } else if address == 171 {
            Some(Register::ZeroMode)
        } else if address == 172 {
            Some(Register::AutoZeroForceN)
        } else if address == 173 {
            Some(Register::AutoZeroExitMode)
        } else if address == 174 {
            Some(Register::MBRS485Mode)
        } else if address == 175 {
            Some(Register::MbForceFilter)
        } else if address == 176 {
            Some(Register::MbPosFilter)
        } else if address == 177 {
            Some(Register::AutoZeroSpeedMmps)
        } else if address == 178 {
            Some(Register::PwmTimeoutMs)
        } else if address == 179 {
            Some(Register::PwmTimeConstMs)
        } else if address == 180 {
            Some(Register::PwmMinPosL)
        } else if address == 181 {
            Some(Register::PwmMinPosH)
        } else if address == 182 {
            Some(Register::PwmMaxPosL)
        } else if address == 183 {
            Some(Register::PwmMaxPosH)
        } else if address == 184 {
            Some(Register::PwmServoType)
        } else if address == 317 {
            Some(Register::ModeOfOperation)
        } else if address == 318 {
            Some(Register::CalibrationStatus)
        } else if address == 319 {
            Some(Register::KinematicStatus)
        } else if address == 336 {
            Some(Register::BoardTemp)
        } else if address == 338 {
            Some(Register::VddFinal)
        } else if address == 342 {
            Some(Register::ShaftPosUmL)
        } else if address == 343 {
            Some(Register::ShaftPosUmH)
        } else if address == 344 {
            Some(Register::ShaftSpeedMmpsL)
        } else if address == 345 {
            Some(Register::ShaftSpeedMmpsH)
        } else if address == 346 {
            Some(Register::ShaftAccelMmpssL)
        } else if address == 347 {
            Some(Register::ShaftAccelMmpssH)
        } else if address == 348 {
            Some(Register::ForceL)
        } else if address == 349 {
            Some(Register::ForceH)
        } else if address == 350 {
            Some(Register::Power)
        } else if address == 351 {
            Some(Register::HbaCurrent)
        } else if address == 352 {
            Some(Register::HbbCurrent)
        } else if address == 353 {
            Some(Register::HbcCurrent)
        } else if address == 354 {
            Some(Register::HbdCurrent)
        } else if address == 355 {
            Some(Register::AvgPower)
        } else if address == 356 {
            Some(Register::CoilTemp)
        } else {
            None
        }
    }

    /// The address of the register.
    pub fn address(self) -> (address: u16)
        ensures
            address == self.address_of(),
    {
        match self {
            Register::CtrlReg0 => CtrlReg0::ADDRESS,
            Register::CtrlReg1 => CtrlReg1::ADDRESS,
            Register::CtrlReg2 => CtrlReg2::ADDRESS,
            Register::CtrlReg3 => CtrlReg3::ADDRESS,
            Register::CtrlReg4 => CtrlReg4::ADDRESS,
            Register::KinSwTrig => KinSwTrig::ADDRESS,
            Register::ForceCmdL => ForceCmdL::ADDRESS,
            Register::ForceCmdH => ForceCmdH::ADDRESS,
            Register::PosCmdL => PosCmdL::ADDRESS,
            Register::PosCmdH => PosCmdH::ADDRESS,
            Register::CCPGain => CCPGain::ADDRESS,
            Register::CCIGain => CCIGain::ADDRESS,
            Register::CCFGain => CCFGain::ADDRESS,
            Register::CCMaxDuty => CCMaxDuty::ADDRESS,
            Register::PCPGain => PCPGain::ADDRESS,
            Register::PCIGain => PCIGain::ADDRESS,
            Register::PCDVGain => PCDVGain::ADDRESS,
            Register::PCDEGain => PCDEGain::ADDRESS,
            Register::PCFSatuL => PCFSatuL::ADDRESS,
            Register::PCFSatuH => PCFSatuH::ADDRESS,
            Register::UserMaxTemp => UserMaxTemp::ADDRESS,
            Register::UserMaxForceL => UserMaxForceL::ADDRESS,
            Register::UserMaxForceH => UserMaxForceH::ADDRESS,
            Register::UserMaxPower => UserMaxPower::ADDRESS,
            Register::SafetyDGain => SafetyDGain::ADDRESS,
            Register::UserMaxCoilTemp => UserMaxCoilTemp::ADDRESS,
            Register::TempErrHysteresis => TempErrHysteresis::ADDRESS,
            Register::PCSoftstartPeriod => PCSoftstartPeriod::ADDRESS,
            Register::PosSign => PosSign::ADDRESS,
            Register::LogPeriod => LogPeriod::ADDRESS,
            Register::UserCommsTimeout => UserCommsTimeout::ADDRESS,
            Register::UsrMbBaudLo => UsrMbBaudLo::ADDRESS,
            Register::UsrMbBaudHi => UsrMbBaudHi::ADDRESS,
            Register::ForceFilt => ForceFilt::ADDRESS,
            Register::PosFilt => PosFilt::ADDRESS,
            Register::UsrMbDelay => UsrMbDelay::ADDRESS,
            Register::UsrMbAddr => UsrMbAddr::ADDRESS,
            Register::ZeroMode => ZeroMode::ADDRESS,
            Register::AutoZeroForceN => AutoZeroForceN::ADDRESS,
            Register::AutoZeroExitMode => AutoZeroExitMode::ADDRESS,
            Register::MBRS485Mode => MBRS485Mode::ADDRESS,
            Register::MbForceFilter => MbForceFilter::ADDRESS,
            Register::MbPosFilter => MbPosFilter::ADDRESS,
            Register::AutoZeroSpeedMmps => AutoZeroSpeedMmps::ADDRESS,
            Register::PwmTimeoutMs => PwmTimeoutMs::ADDRESS,
            Register::PwmTimeConstMs => PwmTimeConstMs::ADDRESS,
            Register::PwmMinPosL => PwmMinPosL::ADDRESS,
            Register::PwmMinPosH => PwmMinPosH::ADDRESS,
            Register::PwmMaxPosL => PwmMaxPosL::ADDRESS,
            Register::PwmMaxPosH => PwmMaxPosH::ADDRESS,
            Register::PwmServoType => PwmServoType::ADDRESS,
            Register::ModeOfOperation => ModeOfOperation::ADDRESS,
            Register::CalibrationStatus => CalibrationStatus::ADDRESS,
            Register::KinematicStatus => KinematicStatus::ADDRESS,
            Register::BoardTemp => BoardTemp::ADDRESS,
            Register::VddFinal => VddFinal::ADDRESS,
            Register::ShaftPosUmL => ShaftPosUmL::ADDRESS,
            Register::ShaftPosUmH => ShaftPosUmH::ADDRESS,
            Register::ShaftSpeedMmpsL => ShaftSpeedMmpsL::ADDRESS,
            Register::ShaftSpeedMmpsH => ShaftSpeedMmpsH::ADDRESS,
            Register::ShaftAccelMmpssL => ShaftAccelMmpssL::ADDRESS,
            Register::ShaftAccelMmpssH => ShaftAccelMmpssH::ADDRESS,
            Register::ForceL => ForceL::ADDRESS,
            Register::ForceH => ForceH::ADDRESS,
            Register::Power => Power::ADDRESS,
            Register::HbaCurrent => HbaCurrent::ADDRESS,
            Register::HbbCurrent => HbbCurrent::ADDRESS,
            Register::HbcCurrent => HbcCurrent::ADDRESS,
            Register::HbdCurrent => HbdCurrent::ADDRESS,
            Register::AvgPower => AvgPower::ADDRESS,
            Register::CoilTemp => CoilTemp::ADDRESS,
        }
    }

    /// Looks up the register at `address`.
    pub fn from_address(address: u16) -> (register: Option<Register>)
        ensures
            register == Register::at(address),
    {
        if address == CtrlReg0::ADDRESS {
            Some(Register::CtrlReg0)
        } else if address == CtrlReg1::ADDRESS {
            Some(Register::CtrlReg1)
        } else if address == CtrlReg2::ADDRESS {
            Some(Register::CtrlReg2)
        } else if address == CtrlReg3::ADDRESS {
            Some(Register::CtrlReg3)
        } else if address == CtrlReg4::ADDRESS {
            Some(Register::CtrlReg4)
        } else if address == KinSwTrig::ADDRESS {
            Some(Register::KinSwTrig)
        } else if address == ForceCmdL::ADDRESS {
            Some(Register::ForceCmdL)
        } else if address == ForceCmdH::ADDRESS {
            Some(Register::ForceCmdH)
        } else if address == PosCmdL::ADDRESS {
            Some(Register::PosCmdL)
        } else if address == PosCmdH::ADDRESS {
            Some(Register::PosCmdH)
        } else if address == CCPGain::ADDRESS {
            Some(Register::CCPGain)
        } else if address == CCIGain::ADDRESS {
            Some(Register::CCIGain)
        } else if address == CCFGain::ADDRESS {
            Some(Register::CCFGain)
        } else if address == CCMaxDuty::ADDRESS {
            Some(Register::CCMaxDuty)
        } else if address == PCPGain::ADDRESS {
            Some(Register::PCPGain)
        } else if address == PCIGain::ADDRESS {
            Some(Register::PCIGain)
        } else if address == PCDVGain::ADDRESS {
            Some(Register::PCDVGain)
        } else if address == PCDEGain::ADDRESS {
            Some(Register::PCDEGain)
        } else if address == PCFSatuL::ADDRESS {
            Some(Register::PCFSatuL)
        } else if address == PCFSatuH::ADDRESS {
            Some(Register::PCFSatuH)
        } else if address == UserMaxTemp::ADDRESS {
            Some(Register::UserMaxTemp)
        } else if address == UserMaxForceL::ADDRESS {
            Some(Register::UserMaxForceL)
        } else if address == UserMaxForceH::ADDRESS {
            Some(Register::UserMaxForceH)
        } else if address == UserMaxPower::ADDRESS {
            Some(Register::UserMaxPower)
        } else if address == SafetyDGain::ADDRESS {
            Some(Register::SafetyDGain)
        } else if address == UserMaxCoilTemp::ADDRESS {
            Some(Register::UserMaxCoilTemp)
        } else if address == TempErrHysteresis::ADDRESS {
            Some(Register::TempErrHysteresis)
        } else if address == PCSoftstartPeriod::ADDRESS {
            Some(Register::PCSoftstartPeriod)
        } else if address == PosSign::ADDRESS {
            Some(Register::PosSign)
        } else if address == LogPeriod::ADDRESS {
            Some(Register::LogPeriod)
        } else if address == UserCommsTimeout::ADDRESS {
            Some(Register::UserCommsTimeout)
        } else if address == UsrMbBaudLo::ADDRESS {
            Some(Register::UsrMbBaudLo)
        } else if address == UsrMbBaudHi::ADDRESS {
            Some(Register::UsrMbBaudHi)
        } else if address == ForceFilt::ADDRESS {
            Some(Register::ForceFilt)
        } else if address == PosFilt::ADDRESS {
            Some(Register::PosFilt)
        } else if address == UsrMbDelay::ADDRESS {
            Some(Register::UsrMbDelay)
        } else if address == UsrMbAddr::ADDRESS {
            Some(Register::UsrMbAddr)
        } else if address == ZeroMode::ADDRESS {
            Some(Register::ZeroMode)
        } else if address == AutoZeroForceN::ADDRESS {
            Some(Register::AutoZeroForceN)
        } else if address == AutoZeroExitMode::ADDRESS {
            Some(Register::AutoZeroExitMode)
        } else if address == MBRS485Mode::ADDRESS {
            Some(Register::MBRS485Mode)
        } else if address == MbForceFilter::ADDRESS {
            Some(Register::MbForceFilter)
        } else if address == MbPosFilter::ADDRESS {
            Some(Register::MbPosFilter)
        } else if address == AutoZeroSpeedMmps::ADDRESS {
            Some(Register::AutoZeroSpeedMmps)
        } else if address == PwmTimeoutMs::ADDRESS {
            Some(Register::PwmTimeoutMs)
        } else if address == PwmTimeConstMs::ADDRESS {
            Some(Register::PwmTimeConstMs)
        } else if address == PwmMinPosL::ADDRESS {
            Some(Register::PwmMinPosL)
        } else if address == PwmMinPosH::ADDRESS {
            Some(Register::PwmMinPosH)
        } else if address == PwmMaxPosL::ADDRESS {
            Some(Register::PwmMaxPosL)
        } else if address == PwmMaxPosH::ADDRESS {
            Some(Register::PwmMaxPosH)
        } else if address == PwmServoType::ADDRESS {
            Some(Register::PwmServoType)
        } else if address == ModeOfOperation::ADDRESS {
            Some(Register::ModeOfOperation)
        } else if address == CalibrationStatus::ADDRESS {
            Some(Register::CalibrationStatus)
        } else if address == KinematicStatus::ADDRESS {
            Some(Register::KinematicStatus)
        } else if address == BoardTemp::ADDRESS {
            Some(Register::BoardTemp)
        } else if address == VddFinal::ADDRESS {
            Some(Register::VddFinal)
        } else if address == ShaftPosUmL::ADDRESS {
            Some(Register::ShaftPosUmL)
        } else if address == ShaftPosUmH::ADDRESS {
            Some(Register::ShaftPosUmH)
        } else if address == ShaftSpeedMmpsL::ADDRESS {
            Some(Register::ShaftSpeedMmpsL)
        } else if address == ShaftSpeedMmpsH::ADDRESS {
            Some(Register::ShaftSpeedMmpsH)
        } else if address == ShaftAccelMmpssL::ADDRESS {
            Some(Register::ShaftAccelMmpssL)
        } else if address == ShaftAccelMmpssH::ADDRESS {
            Some(Register::ShaftAccelMmpssH)
        } else if address == ForceL::ADDRESS {
            Some(Register::ForceL)
        } else if address == ForceH::ADDRESS {
            Some(Register::ForceH)
        } else if address == Power::ADDRESS {
            Some(Register::Power)
        } else if address == HbaCurrent::ADDRESS {
            Some(Register::HbaCurrent)
        } else if address == HbbCurrent::ADDRESS {
            Some(Register::HbbCurrent)
        } else if address == HbcCurrent::ADDRESS {
            Some(Register::HbcCurrent)
        } else if address == HbdCurrent::ADDRESS {
            Some(Register::HbdCurrent)
        } else if address == AvgPower::ADDRESS {
            Some(Register::AvgPower)
        } else if address == CoilTemp::ADDRESS {
            Some(Register::CoilTemp)
        } else {
            None
        }
    }

    /// Every register is found at its own address, and only there.
    pub proof fn lemma_found_at_its_address(self, address: u16)
        ensures
            Register::at(address) == Some(self) <==> address == self.address_of(),
    {
    }

    /// No two registers share an address.
    pub proof fn lemma_addresses_differ(self, other: Register)
        requires
            self != other,
        ensures
            self.address_of() != other.address_of(),
    {
    }
}

/// Each flag of `CtrlReg0` is found again at its own bit of the register
/// value.
proof fn lemma_ctrl_reg0_flags(
    reset: bool,
    clear_errors: bool,
    zero_position: bool,
    invert_position: bool,
)
    by (bit_vector)
    ensures
        ({
            let word = flag_mask(reset, 0x0001)
                | flag_mask(clear_errors, 0x0002)
                | flag_mask(zero_position, 0x0004)
                | flag_mask(invert_position, 0x0008);
            &&& flag_at(word, 0x0001) == reset
            &&& flag_at(word, 0x0002) == clear_errors
            &&& flag_at(word, 0x0004) == zero_position
            &&& flag_at(word, 0x0008) == invert_position
        }),
{
}

/// Control register 0: reset the motor, clear its errors, zero or invert the
/// position. Register 0.
///
/// | bits | field |
/// |------|-------|
/// | 0 | `reset` |
/// | 1 | `clear_errors` |
/// | 2 | `zero_position` |
/// | 3 | `invert_position` |
/// | 4-15 | `reserve` (reserved) |
#[derive(Debug, PartialEq, Eq, Clone, Copy, Structural)]
pub struct CtrlReg0 {
    pub reset: bool,
    pub clear_errors: bool,
    pub zero_position: bool,
    pub invert_position: bool,
    pub reserve: u16,
}

impl CtrlReg0 {
    /// The address of the register.
    pub const ADDRESS: u16 = 0;

    /// The register value: each field at its bits, the reserved bits zero.
    pub open spec fn word(self) -> u16 {
        flag_mask(self.reset, 0x0001)
            | flag_mask(self.clear_errors, 0x0002)
            | flag_mask(self.zero_position, 0x0004)
            | flag_mask(self.invert_position, 0x0008)
    }

    /// The fields that a register value holds, the reserved fields zero.
    pub open spec fn of_word(word: u16) -> CtrlReg0 {
        CtrlReg0 {
            reset: flag_at(word, 0x0001),
            clear_errors: flag_at(word, 0x0002),
            zero_position: flag_at(word, 0x0004),
            invert_position: flag_at(word, 0x0008),
            reserve: 0,
        }
    }

    /// True when the reserved fields are zero, as they are in every value that
    /// was read from a register.
    pub open spec fn canonical(self) -> bool {
        self.reserve == 0
    }

    /// Reads the fields from a register value.
    pub fn from_word(word: u16) -> (register: CtrlReg0)
        ensures
            register == CtrlReg0::of_word(word),
    {
        CtrlReg0 {
            reset: has_flag(word, 0x0001),
            clear_errors: has_flag(word, 0x0002),
            zero_position: has_flag(word, 0x0004),
            invert_position: has_flag(word, 0x0008),
            reserve: 0,
        }
    }

    /// The register value that holds the fields.
    pub fn to_word(&self) -> (word: u16)
        ensures
            word == self.word(),
    {
        mask_if(self.reset, 0x0001)
            | mask_if(self.clear_errors, 0x0002)
            | mask_if(self.zero_position, 0x0004)
            | mask_if(self.invert_position, 0x0008)
    }

    /// A canonical register is read back unchanged from its value, and every
    /// register that is read from a value is canonical.
    pub proof fn lemma_word_round_trip(self, word: u16)
        ensures
            self.canonical() ==> CtrlReg0::of_word(self.word()) == self,
            CtrlReg0::of_word(word).canonical(),
    {
        lemma_ctrl_reg0_flags(
            self.reset,
            self.clear_errors,
            self.zero_position,
            self.invert_position,
        );
    }
}

/// Each flag of `CtrlReg1` is found again at its own bit of the register
/// value.
proof fn lemma_ctrl_reg1_flags(
    position_controller_gain_set_flag: bool,
    current_controller_gain_set_flag: bool,
)
    by (bit_vector)
    ensures
        ({
            let word = flag_mask(position_controller_gain_set_flag, 0x0400)
                | flag_mask(current_controller_gain_set_flag, 0x0800);
            &&& flag_at(word, 0x0400) == position_controller_gain_set_flag
            &&& flag_at(word, 0x0800) == current_controller_gain_set_flag
        }),
{
}

/// Control register 1: tells the motor that new controller gains were written.
/// Register 1.
///
/// | bits | field |
/// |------|-------|
/// | 0-9 | `reserve` (reserved) |
/// | 10 | `position_controller_gain_set_flag` |
/// | 11 | `current_controller_gain_set_flag` |
/// | 12-15 | `reserve2` (reserved) |
#[derive(Debug, PartialEq, Eq, Clone, Copy, Structural)]
pub struct CtrlReg1 {
    pub reserve: u16,
    pub position_controller_gain_set_flag: bool,
    pub current_controller_gain_set_flag: bool,
    pub reserve2: u8,
}

impl CtrlReg1 {
    /// The address of the register.
    pub const ADDRESS: u16 = 1;

    /// The register value: each field at its bits, the reserved bits zero.
    pub open spec fn word(self) -> u16 {
        flag_mask(self.position_controller_gain_set_flag, 0x0400)
            | flag_mask(self.current_controller_gain_set_flag, 0x0800)
    }

    /// The fields that a register value holds, the reserved fields zero.
    pub open spec fn of_word(word: u16) -> CtrlReg1 {
        CtrlReg1 {
            reserve: 0,
            position_controller_gain_set_flag: flag_at(word, 0x0400),
            current_controller_gain_set_flag: flag_at(word, 0x0800),
            reserve2: 0,
        }
    }

    /// True when the reserved fields are zero, as they are in every value that
    /// was read from a register.
    pub open spec fn canonical(self) -> bool {
        self.reserve == 0 && self.reserve2 == 0
    }

    /// Reads the fields from a register value.
    pub fn from_word(word: u16) -> (register: CtrlReg1)
        ensures
            register == CtrlReg1::of_word(word),
    {
        CtrlReg1 {
            reserve: 0,
            position_controller_gain_set_flag: has_flag(word, 0x0400),
            current_controller_gain_set_flag: has_flag(word, 0x0800),
            reserve2: 0,
        }
    }

    /// The register value that holds the fields.
    pub fn to_word(&self) -> (word: u16)
        ensures
            word == self.word(),
    {
        mask_if(self.position_controller_gain_set_flag, 0x0400)
            | mask_if(self.current_controller_gain_set_flag, 0x0800)
    }

    /// A canonical register is read back unchanged from its value, and every
    /// register that is read from a value is canonical.
    pub proof fn lemma_word_round_trip(self, word: u16)
        ensures
            self.canonical() ==> CtrlReg1::of_word(self.word()) == self,
            CtrlReg1::of_word(word).canonical(),
    {
        lemma_ctrl_reg1_flags(
            self.position_controller_gain_set_flag,
            self.current_controller_gain_set_flag,
        );
    }
}

/// Each flag of `CtrlReg2` is found again at its own bit of the register
/// value.
proof fn lemma_ctrl_reg2_flags(
    tuning_save: bool,
    user_opt_save: bool,
    motion_config_save: bool,
    iosh_save: bool,
    haptic_config_save: bool,
)
    by (bit_vector)
    ensures
        ({
            let word = flag_mask(tuning_save, 0x0010)
                | flag_mask(user_opt_save, 0x0020)
                | flag_mask(motion_config_save, 0x0040)
                | flag_mask(iosh_save, 0x0080)
                | flag_mask(haptic_config_save, 0x0100);
            &&& flag_at(word, 0x0010) == tuning_save
            &&& flag_at(word, 0x0020) == user_opt_save
            &&& flag_at(word, 0x0040) == motion_config_save
            &&& flag_at(word, 0x0080) == iosh_save
            &&& flag_at(word, 0x0100) == haptic_config_save
        }),
{
}

/// Control register 2: asks the motor to save groups of settings. Register 2.
///
/// | bits | field |
/// |------|-------|
/// | 0-3 | `reserve` (reserved) |
/// | 4 | `tuning_save` |
/// | 5 | `user_opt_save` |
/// | 6 | `motion_config_save` |
/// | 7 | `iosh_save` |
/// | 8 | `haptic_config_save` |
/// | 9-15 | `reserve2` (reserved) |
#[derive(Debug, PartialEq, Eq, Clone, Copy, Structural)]
pub struct CtrlReg2 {
    pub reserve: u8,
    pub tuning_save: bool,
    pub user_opt_save: bool,
    pub motion_config_save: bool,
    pub iosh_save: bool,
    pub haptic_config_save: bool,
    pub reserve2: u8,
}

impl CtrlReg2 {
    /// The address of the register.
    pub const ADDRESS: u16 = 2;

    /// The register value: each field at its bits, the reserved bits zero.
    pub open spec fn word(self) -> u16 {
        flag_mask(self.tuning_save, 0x0010)
            | flag_mask(self.user_opt_save, 0x0020)
            | flag_mask(self.motion_config_save, 0x0040)
            | flag_mask(self.iosh_save, 0x0080)
            | flag_mask(self.haptic_config_save, 0x0100)
    }

    /// The fields that a register value holds, the reserved fields zero.
    pub open spec fn of_word(word: u16) -> CtrlReg2 {
        CtrlReg2 {
            reserve: 0,
            tuning_save: flag_at(word, 0x0010),
            user_opt_save: flag_at(word, 0x0020),
            motion_config_save: flag_at(word, 0x0040),
            iosh_save: flag_at(word, 0x0080),
            haptic_config_save: flag_at(word, 0x0100),
            reserve2: 0,
        }
    }

    /// True when the reserved fields are zero, as they are in every value that
    /// was read from a register.
    pub open spec fn canonical(self) -> bool {
        self.reserve == 0 && self.reserve2 == 0
    }

    /// Reads the fields from a register value.
    pub fn from_word(word: u16) -> (register: CtrlReg2)
        ensures
            register == CtrlReg2::of_word(word),
    {
        CtrlReg2 {
            reserve: 0,
            tuning_save: has_flag(word, 0x0010),
            user_opt_save: has_flag(word, 0x0020),
            motion_config_save: has_flag(word, 0x0040),
            iosh_save: has_flag(word, 0x0080),
            haptic_config_save: has_flag(word, 0x0100),
            reserve2: 0,
        }
    }

    /// The register value that holds the fields.
    pub fn to_word(&self) -> (word: u16)
        ensures
            word == self.word(),
    {
        mask_if(self.tuning_save, 0x0010)
            | mask_if(self.user_opt_save, 0x0020)
            | mask_if(self.motion_config_save, 0x0040)
            | mask_if(self.iosh_save, 0x0080)
            | mask_if(self.haptic_config_save, 0x0100)
    }

    /// A canonical register is read back unchanged from its value, and every
    /// register that is read from a value is canonical.
    pub proof fn lemma_word_round_trip(self, word: u16)
        ensures
            self.canonical() ==> CtrlReg2::of_word(self.word()) == self,
            CtrlReg2::of_word(word).canonical(),
    {
        lemma_ctrl_reg2_flags(
            self.tuning_save,
            self.user_opt_save,
            self.motion_config_save,
            self.iosh_save,
            self.haptic_config_save,
        );
    }
}

/// Control register 3: the mode the motor is asked to enter. Register 3.
///
/// | bits | field |
/// |------|-------|
/// | 0-7 | `mode` |
/// | 8-15 | `reserve` (reserved) |
#[derive(Debug, PartialEq, Eq, Clone, Copy, Structural)]
pub struct CtrlReg3 {
    pub mode: OrcaModeOfOperation,
    pub reserve: u8,
}

impl CtrlReg3 {
    /// The address of the register.
    pub const ADDRESS: u16 = 3;

    /// The register value: each field at its bits, the reserved bits zero.
    pub open spec fn word(self) -> u16 {
        self.mode.byte() as u16
    }

    /// The fields that a register value holds, the reserved fields zero.
    pub open spec fn of_word(word: u16) -> CtrlReg3 {
        CtrlReg3 {
            mode: OrcaModeOfOperation::of_field((word % 0x100) as u8),
            reserve: 0,
        }
    }

    /// True when the reserved fields are zero, as they are in every value that
    /// was read from a register.
    pub open spec fn canonical(self) -> bool {
        self.reserve == 0
    }

    /// Reads the fields from a register value.
    pub fn from_word(word: u16) -> (register: CtrlReg3)
        ensures
            register == CtrlReg3::of_word(word),
    {
        CtrlReg3 {
            mode: OrcaModeOfOperation::from_primitive((word % 0x100) as u8),
            reserve: 0,
        }
    }

    /// The register value that holds the fields.
    pub fn to_word(&self) -> (word: u16)
        ensures
            word == self.word(),
    {
        self.mode.into_primitive() as u16
    }

    /// A canonical register is read back unchanged from its value, and every
    /// register that is read from a value is canonical.
    pub proof fn lemma_word_round_trip(self, word: u16)
        ensures
            self.canonical() ==> CtrlReg3::of_word(self.word()) == self,
            CtrlReg3::of_word(word).canonical(),
    {
        self.mode.lemma_byte_round_trip();
    }
}

/// Each flag of `CtrlReg4` is found again at its own bit of the register
/// value.
proof fn lemma_ctrl_reg4_flags(
    tuning_defaults: bool,
    motor_user_options_defaults: bool,
    modbus_user_options_defaults: bool,
    kinematic_defaults: bool,
    haptic_defaults: bool,
    iosh_defaults: bool,
    pwm_defaults: bool,
)
    by (bit_vector)
    ensures
        ({
            let word = flag_mask(tuning_defaults, 0x0002)
                | flag_mask(motor_user_options_defaults, 0x0004)
                | flag_mask(modbus_user_options_defaults, 0x0008)
                | flag_mask(kinematic_defaults, 0x0010)
                | flag_mask(haptic_defaults, 0x0020)
                | flag_mask(iosh_defaults, 0x0040)
                | flag_mask(pwm_defaults, 0x0080);
            &&& flag_at(word, 0x0002) == tuning_defaults
            &&& flag_at(word, 0x0004) == motor_user_options_defaults
            &&& flag_at(word, 0x0008) == modbus_user_options_defaults
            &&& flag_at(word, 0x0010) == kinematic_defaults
            &&& flag_at(word, 0x0020) == haptic_defaults
            &&& flag_at(word, 0x0040) == iosh_defaults
            &&& flag_at(word, 0x0080) == pwm_defaults
        }),
{
}

/// Control register 4: asks the motor to restore groups of settings to their
/// defaults. Register 4.
///
/// | bits | field |
/// |------|-------|
/// | 0 | `reserve` (reserved) |
/// | 1 | `tuning_defaults` |
/// | 2 | `motor_user_options_defaults` |
/// | 3 | `modbus_user_options_defaults` |
/// | 4 | `kinematic_defaults` |
/// | 5 | `haptic_defaults` |
/// | 6 | `iosh_defaults` |
/// | 7 | `pwm_defaults` |
/// | 8-15 | `reserve2` (reserved) |
#[derive(Debug, PartialEq, Eq, Clone, Copy, Structural)]
pub struct CtrlReg4 {
    pub reserve: bool,
    pub tuning_defaults: bool,
    pub motor_user_options_defaults: bool,
    pub modbus_user_options_defaults: bool,
    pub kinematic_defaults: bool,
    pub haptic_defaults: bool,
    pub iosh_defaults: bool,
    pub pwm_defaults: bool,
    pub reserve2: u8,
}

impl CtrlReg4 {
    /// The address of the register.
    pub const ADDRESS: u16 = 4;

    /// The register value: each field at its bits, the reserved bits zero.
    pub open spec fn word(self) -> u16 {
        flag_mask(self.tuning_defaults, 0x0002)
            | flag_mask(self.motor_user_options_defaults, 0x0004)
            | flag_mask(self.modbus_user_options_defaults, 0x0008)
            | flag_mask(self.kinematic_defaults, 0x0010)
            | flag_mask(self.haptic_defaults, 0x0020)
            | flag_mask(self.iosh_defaults, 0x0040)
            | flag_mask(self.pwm_defaults, 0x0080)
    }

    /// The fields that a register value holds, the reserved fields zero.
    pub open spec fn of_word(word: u16) -> CtrlReg4 {
        CtrlReg4 {
            reserve: false,
            tuning_defaults: flag_at(word, 0x0002),
            motor_user_options_defaults: flag_at(word, 0x0004),
            modbus_user_options_defaults: flag_at(word, 0x0008),
            kinematic_defaults: flag_at(word, 0x0010),
            haptic_defaults: flag_at(word, 0x0020),
            iosh_defaults: flag_at(word, 0x0040),
            pwm_defaults: flag_at(word, 0x0080),
            reserve2: 0,
        }
    }

    /// True when the reserved fields are zero, as they are in every value that
    /// was read from a register.
    pub open spec fn canonical(self) -> bool {
        !self.reserve && self.reserve2 == 0
    }

    /// Reads the fields from a register value.
    pub fn from_word(word: u16) -> (register: CtrlReg4)
        ensures
            register == CtrlReg4::of_word(word),
    {
        CtrlReg4 {
            reserve: false,
            tuning_defaults: has_flag(word, 0x0002),
            motor_user_options_defaults: has_flag(word, 0x0004),
            modbus_user_options_defaults: has_flag(word, 0x0008),
            kinematic_defaults: has_flag(word, 0x0010),
            haptic_defaults: has_flag(word, 0x0020),
            iosh_defaults: has_flag(word, 0x0040),
            pwm_defaults: has_flag(word, 0x0080),
            reserve2: 0,
        }
    }

    /// The register value that holds the fields.
    pub fn to_word(&self) -> (word: u16)
        ensures
            word == self.word(),
    {
        mask_if(self.tuning_defaults, 0x0002)
            | mask_if(self.motor_user_options_defaults, 0x0004)
            | mask_if(self.modbus_user_options_defaults, 0x0008)
            | mask_if(self.kinematic_defaults, 0x0010)
            | mask_if(self.haptic_defaults, 0x0020)
            | mask_if(self.iosh_defaults, 0x0040)
            | mask_if(self.pwm_defaults, 0x0080)
    }

    /// A canonical register is read back unchanged from its value, and every
    /// register that is read from a value is canonical.
    pub proof fn lemma_word_round_trip(self, word: u16)
        ensures
            self.canonical() ==> CtrlReg4::of_word(self.word()) == self,
            CtrlReg4::of_word(word).canonical(),
    {
        lemma_ctrl_reg4_flags(
            self.tuning_defaults,
            self.motor_user_options_defaults,
            self.modbus_user_options_defaults,
            self.kinematic_defaults,
            self.haptic_defaults,
            self.iosh_defaults,
            self.pwm_defaults,
        );
    }
}

/// The software trigger of a kinematic motion. Register 9.
///
/// | bits | field |
/// |------|-------|
/// | 0-3 | `motion_id` |
/// | 4-15 | `reserve` (reserved) |
#[derive(Debug, PartialEq, Eq, Clone, Copy, Structural)]
pub struct KinSwTrig {
    pub motion_id: u8,
    pub reserve: u16,
}

impl KinSwTrig {
    /// The address of the register.
    pub const ADDRESS: u16 = 9;

    /// The register value: each field at its bits, the reserved bits zero.
    pub open spec fn word(self) -> u16 {
        (self.motion_id % 0x10) as u16
    }

    /// The fields that a register value holds, the reserved fields zero.
    pub open spec fn of_word(word: u16) -> KinSwTrig {
        KinSwTrig {
            motion_id: (word % 0x10) as u8,
            reserve: 0,
        }
    }

    /// True when the reserved field is zero and the motion fits its four bits.
    pub open spec fn canonical(self) -> bool {
        self.reserve == 0 && self.motion_id < 0x10
    }

    /// Reads the fields from a register value.
    pub fn from_word(word: u16) -> (register: KinSwTrig)
        ensures
            register == KinSwTrig::of_word(word),
    {
        KinSwTrig {
            motion_id: (word % 0x10) as u8,
            reserve: 0,
        }
    }

    /// The register value that holds the fields.
    pub fn to_word(&self) -> (word: u16)
        ensures
            word == self.word(),
    {
        (self.motion_id % 0x10) as u16
    }

    /// A canonical register is read back unchanged from its value, and every
    /// register that is read from a value is canonical.
    pub proof fn lemma_word_round_trip(self, word: u16)
        ensures
            self.canonical() ==> KinSwTrig::of_word(self.word()) == self,
            KinSwTrig::of_word(word).canonical(),
    {
    }
}

/// The force command, low word. Register 28.
#[derive(Debug, PartialEq, Eq, Clone, Copy, Structural)]
pub struct ForceCmdL {
    pub force_cmd_l: u16,
}

impl ForceCmdL {
    /// The address of the register.
    pub const ADDRESS: u16 = 28;
}

/// The force command, high word. Register 29.
#[derive(Debug, PartialEq, Eq, Clone, Copy, Structural)]
pub struct ForceCmdH {
    pub force_cmd_h: u16,
}

impl ForceCmdH {
    /// The address of the register.
    pub const ADDRESS: u16 = 29;
}

/// The position command, low word. Register 30.
#[derive(Debug, PartialEq, Eq, Clone, Copy, Structural)]
pub struct PosCmdL {
    pub pos_cmd_l: u16,
}

impl PosCmdL {
    /// The address of the register.
    pub const ADDRESS: u16 = 30;
}

/// The position command, high word. Register 31.
#[derive(Debug, PartialEq, Eq, Clone, Copy, Structural)]
pub struct PosCmdH {
    pub pos_cmd_h: u16,
}

impl PosCmdH {
    /// The address of the register.
    pub const ADDRESS: u16 = 31;
}

/// The proportional gain of the current controller. Register 129.
#[derive(Debug, PartialEq, Eq, Clone, Copy, Structural)]
pub struct CCPGain {
    pub cc_pgain: u16,
}

impl CCPGain {
    /// The address of the register.
    pub const ADDRESS: u16 = 129;
}

/// The integral gain of the current controller. Register 130.
#[derive(Debug, PartialEq, Eq, Clone, Copy, Structural)]
pub struct CCIGain {
    pub cc_igain: u16,
}

impl CCIGain {
    /// The address of the register.
    pub const ADDRESS: u16 = 130;
}

/// The forward gain of the current controller. Register 131.
#[derive(Debug, PartialEq, Eq, Clone, Copy, Structural)]
pub struct CCFGain {
    pub cc_fgain: u16,
}

impl CCFGain {
    /// The address of the register.
    pub const ADDRESS: u16 = 131;
}

/// The highest duty cycle of the current controller. Register 132.
#[derive(Debug, PartialEq, Eq, Clone, Copy, Structural)]
pub struct CCMaxDuty {
    pub cc_max_duty: u16,
}

impl CCMaxDuty {
    /// The address of the register.
    pub const ADDRESS: u16 = 132;
}

/// The proportional gain of the position controller. Register 133.
#[derive(Debug, PartialEq, Eq, Clone, Copy, Structural)]
pub struct PCPGain {
    pub pc_pgain: u16,
}

impl PCPGain {
    /// The address of the register.
    pub const ADDRESS: u16 = 133;
}

/// The integral gain of the position controller. Register 134.
#[derive(Debug, PartialEq, Eq, Clone, Copy, Structural)]
pub struct PCIGain {
    pub pc_igain: u16,
}

impl PCIGain {
    /// The address of the register.
    pub const ADDRESS: u16 = 134;
}

/// The velocity gain of the position controller. Register 135.
#[derive(Debug, PartialEq, Eq, Clone, Copy, Structural)]
pub struct PCDVGain {
    pub pc_dvgain: u16,
}

impl PCDVGain {
    /// The address of the register.
    pub const ADDRESS: u16 = 135;
}

/// The error-derivative gain of the position controller. Register 136.
#[derive(Debug, PartialEq, Eq, Clone, Copy, Structural)]
pub struct PCDEGain {
    pub pc_degain: u16,
}

impl PCDEGain {
    /// The address of the register.
    pub const ADDRESS: u16 = 136;
}

/// The force at which the position controller saturates, low word. Register
/// 137.
#[derive(Debug, PartialEq, Eq, Clone, Copy, Structural)]
pub struct PCFSatuL {
    pub pc_fsatu_l: u16,
}

impl PCFSatuL {
    /// The address of the register.
    pub const ADDRESS: u16 = 137;
}

/// The force at which the position controller saturates, high word. Register
/// 138.
#[derive(Debug, PartialEq, Eq, Clone, Copy, Structural)]
pub struct PCFSatuH {
    pub pc_fsatu_h: u16,
}

impl PCFSatuH {
    /// The address of the register.
    pub const ADDRESS: u16 = 138;
}

/// The highest temperature the user allows. Register 139.
#[derive(Debug, PartialEq, Eq, Clone, Copy, Structural)]
pub struct UserMaxTemp {
    pub user_max_temp: u16,
}

impl UserMaxTemp {
    /// The address of the register.
    pub const ADDRESS: u16 = 139;
}

/// The highest force the user allows, low word. Register 140.
#[derive(Debug, PartialEq, Eq, Clone, Copy, Structural)]
pub struct UserMaxForceL {
    pub user_max_force_l: u16,
}

impl UserMaxForceL {
    /// The address of the register.
    pub const ADDRESS: u16 = 140;
}

/// The highest force the user allows, high word. Register 141.
#[derive(Debug, PartialEq, Eq, Clone, Copy, Structural)]
pub struct UserMaxForceH {
    pub user_max_force_h: u16,
}

impl UserMaxForceH {
    /// The address of the register.
    pub const ADDRESS: u16 = 141;
}

/// The highest power the user allows. Register 142.
#[derive(Debug, PartialEq, Eq, Clone, Copy, Structural)]
pub struct UserMaxPower {
    pub user_max_power: u16,
}

impl UserMaxPower {
    /// The address of the register.
    pub const ADDRESS: u16 = 142;
}

/// The damping gain applied when a limit is passed. Register 143.
#[derive(Debug, PartialEq, Eq, Clone, Copy, Structural)]
pub struct SafetyDGain {
    pub safety_dgain: u16,
}

impl SafetyDGain {
    /// The address of the register.
    pub const ADDRESS: u16 = 143;
}

/// The highest coil temperature the user allows. Register 147.
#[derive(Debug, PartialEq, Eq, Clone, Copy, Structural)]
pub struct UserMaxCoilTemp {
    pub user_max_coil_temp: u16,
}

impl UserMaxCoilTemp {
    /// The address of the register.
    pub const ADDRESS: u16 = 147;
}

/// How far the temperature must fall before a temperature error clears.
/// Register 148.
#[derive(Debug, PartialEq, Eq, Clone, Copy, Structural)]
pub struct TempErrHysteresis {
    pub temp_err_hysteresis: u16,
}

impl TempErrHysteresis {
    /// The address of the register.
    pub const ADDRESS: u16 = 148;
}

/// The period over which the position controller starts softly. Register 150.
#[derive(Debug, PartialEq, Eq, Clone, Copy, Structural)]
pub struct PCSoftstartPeriod {
    pub pc_softstart_period: u16,
}

impl PCSoftstartPeriod {
    /// The address of the register.
    pub const ADDRESS: u16 = 150;
}

/// The sign of the position. Register 152.
#[derive(Debug, PartialEq, Eq, Clone, Copy, Structural)]
pub struct PosSign {
    pub pos_sign: u16,
}

impl PosSign {
    /// The address of the register.
    pub const ADDRESS: u16 = 152;
}

/// The period of the log. Register 162.
#[derive(Debug, PartialEq, Eq, Clone, Copy, Structural)]
pub struct LogPeriod {
    pub log_period: u16,
}

impl LogPeriod {
    /// The address of the register.
    pub const ADDRESS: u16 = 162;
}

/// The time without a message after which communication counts as lost.
/// Register 163.
#[derive(Debug, PartialEq, Eq, Clone, Copy, Structural)]
pub struct UserCommsTimeout {
    pub user_comms_timeout: u16,
}

impl UserCommsTimeout {
    /// The address of the register.
    pub const ADDRESS: u16 = 163;
}

/// The baud rate the user chose for Modbus, low word. Register 164.
#[derive(Debug, PartialEq, Eq, Clone, Copy, Structural)]
pub struct UsrMbBaudLo {
    pub usr_mb_baud_lo: u16,
}

impl UsrMbBaudLo {
    /// The address of the register.
    pub const ADDRESS: u16 = 164;
}

/// The baud rate the user chose for Modbus, high word. Register 165.
#[derive(Debug, PartialEq, Eq, Clone, Copy, Structural)]
pub struct UsrMbBaudHi {
    pub usr_mb_baud_hi: u16,
}

impl UsrMbBaudHi {
    /// The address of the register.
    pub const ADDRESS: u16 = 165;
}

/// The force filter. Register 166.
#[derive(Debug, PartialEq, Eq, Clone, Copy, Structural)]
pub struct ForceFilt {
    pub force_filt: u16,
}

impl ForceFilt {
    /// The address of the register.
    pub const ADDRESS: u16 = 166;
}

/// The position filter. Register 167.
#[derive(Debug, PartialEq, Eq, Clone, Copy, Structural)]
pub struct PosFilt {
    pub pos_filt: u16,
}

impl PosFilt {
    /// The address of the register.
    pub const ADDRESS: u16 = 167;
}

/// The delay the user chose between a Modbus request and its reply. Register
/// 168.
#[derive(Debug, PartialEq, Eq, Clone, Copy, Structural)]
pub struct UsrMbDelay {
    pub usr_mb_delay: u16,
}

impl UsrMbDelay {
    /// The address of the register.
    pub const ADDRESS: u16 = 168;
}

/// The Modbus address the user chose. Register 169.
#[derive(Debug, PartialEq, Eq, Clone, Copy, Structural)]
pub struct UsrMbAddr {
    pub usr_mb_addr: u16,
}

impl UsrMbAddr {
    /// The address of the register.
    pub const ADDRESS: u16 = 169;
}

/// How the motor finds its zero position. Register 171.
///
/// | bits | field |
/// |------|-------|
/// | 0-7 | `zero_mode` |
/// | 8-15 | `reserve` (reserved) |
#[derive(Debug, PartialEq, Eq, Clone, Copy, Structural)]
pub struct ZeroMode {
    pub zero_mode: OrcaZeroMode,
    pub reserve: u8,
}

impl ZeroMode {
    /// The address of the register.
    pub const ADDRESS: u16 = 171;

    /// The register value: each field at its bits, the reserved bits zero.
    pub open spec fn word(self) -> u16 {
        self.zero_mode.byte() as u16
    }

    /// The fields that a register value holds, the reserved fields zero.
    pub open spec fn of_word(word: u16) -> ZeroMode {
        ZeroMode {
            zero_mode: OrcaZeroMode::of_field((word % 0x100) as u8),
            reserve: 0,
        }
    }

    /// True when the reserved fields are zero, as they are in every value that
    /// was read from a register.
    pub open spec fn canonical(self) -> bool {
        self.reserve == 0
    }

    /// Reads the fields from a register value.
    pub fn from_word(word: u16) -> (register: ZeroMode)
        ensures
            register == ZeroMode::of_word(word),
    {
        ZeroMode {
            zero_mode: OrcaZeroMode::from_primitive((word % 0x100) as u8),
            reserve: 0,
        }
    }

    /// The register value that holds the fields.
    pub fn to_word(&self) -> (word: u16)
        ensures
            word == self.word(),
    {
        self.zero_mode.into_primitive() as u16
    }

    /// A canonical register is read back unchanged from its value, and every
    /// register that is read from a value is canonical.
    pub proof fn lemma_word_round_trip(self, word: u16)
        ensures
            self.canonical() ==> ZeroMode::of_word(self.word()) == self,
            ZeroMode::of_word(word).canonical(),
    {
        self.zero_mode.lemma_byte_round_trip();
    }
}

/// The force used while auto-zeroing. Register 172.
#[derive(Debug, PartialEq, Eq, Clone, Copy, Structural)]
pub struct AutoZeroForceN {
    pub auto_zero_force_n: u16,
}

impl AutoZeroForceN {
    /// The address of the register.
    pub const ADDRESS: u16 = 172;
}

/// The mode the motor enters once auto-zeroing is done. Register 173.
///
/// | bits | field |
/// |------|-------|
/// | 0-7 | `auto_zero_exit_mode` |
/// | 8-15 | `reserve` (reserved) |
#[derive(Debug, PartialEq, Eq, Clone, Copy, Structural)]
pub struct AutoZeroExitMode {
    pub auto_zero_exit_mode: OrcaAutoZeroExitMode,
    pub reserve: u8,
}

impl AutoZeroExitMode {
    /// The address of the register.
    pub const ADDRESS: u16 = 173;

    /// The register value: each field at its bits, the reserved bits zero.
    pub open spec fn word(self) -> u16 {
        self.auto_zero_exit_mode.byte() as u16
    }

    /// The fields that a register value holds, the reserved fields zero.
    pub open spec fn of_word(word: u16) -> AutoZeroExitMode {
        AutoZeroExitMode {
            auto_zero_exit_mode: OrcaAutoZeroExitMode::of_field((word % 0x100) as u8),
            reserve: 0,
        }
    }

    /// True when the reserved fields are zero, as they are in every value that
    /// was read from a register.
    pub open spec fn canonical(self) -> bool {
        self.reserve == 0
    }

    /// Reads the fields from a register value.
    pub fn from_word(word: u16) -> (register: AutoZeroExitMode)
        ensures
            register == AutoZeroExitMode::of_word(word),
    {
        AutoZeroExitMode {
            auto_zero_exit_mode: OrcaAutoZeroExitMode::from_primitive((word % 0x100) as u8),
            reserve: 0,
        }
    }

    /// The register value that holds the fields.
    pub fn to_word(&self) -> (word: u16)
        ensures
            word == self.word(),
    {
        self.auto_zero_exit_mode.into_primitive() as u16
    }

    /// A canonical register is read back unchanged from its value, and every
    /// register that is read from a value is canonical.
    pub proof fn lemma_word_round_trip(self, word: u16)
        ensures
            self.canonical() ==> AutoZeroExitMode::of_word(self.word()) == self,
            AutoZeroExitMode::of_word(word).canonical(),
    {
        self.auto_zero_exit_mode.lemma_byte_round_trip();
    }
}

/// The RS-485 mode of the Modbus line. Register 174.
#[derive(Debug, PartialEq, Eq, Clone, Copy, Structural)]
pub struct MBRS485Mode {
    pub mb_rs485_mode: u16,
}

impl MBRS485Mode {
    /// The address of the register.
    pub const ADDRESS: u16 = 174;
}

/// The filter on forces commanded over Modbus. Register 175.
#[derive(Debug, PartialEq, Eq, Clone, Copy, Structural)]
pub struct MbForceFilter {
    pub mb_force_filter: u16,
}

impl MbForceFilter {
    /// The address of the register.
    pub const ADDRESS: u16 = 175;
}

/// The filter on positions commanded over Modbus. Register 176.
#[derive(Debug, PartialEq, Eq, Clone, Copy, Structural)]
pub struct MbPosFilter {
    pub mb_pos_filter: u16,
}

impl MbPosFilter {
    /// The address of the register.
    pub const ADDRESS: u16 = 176;
}

/// The speed used while auto-zeroing. Register 177.
#[derive(Debug, PartialEq, Eq, Clone, Copy, Structural)]
pub struct AutoZeroSpeedMmps {
    pub auto_zero_speed_mmps: u16,
}

impl AutoZeroSpeedMmps {
    /// The address of the register.
    pub const ADDRESS: u16 = 177;
}

/// The time without a pulse after which the pulse-width input counts as lost.
/// Register 178.
#[derive(Debug, PartialEq, Eq, Clone, Copy, Structural)]
pub struct PwmTimeoutMs {
    pub pwm_timeout_ms: u16,
}

impl PwmTimeoutMs {
    /// The address of the register.
    pub const ADDRESS: u16 = 178;
}

/// The time constant of the pulse-width input. Register 179.
#[derive(Debug, PartialEq, Eq, Clone, Copy, Structural)]
pub struct PwmTimeConstMs {
    pub pwm_time_const_ms: u16,
}

impl PwmTimeConstMs {
    /// The address of the register.
    pub const ADDRESS: u16 = 179;
}

/// The position of the shortest pulse, low word. Register 180.
#[derive(Debug, PartialEq, Eq, Clone, Copy, Structural)]
pub struct PwmMinPosL {
    pub pwm_min_pos_l: u16,
}

impl PwmMinPosL {
    /// The address of the register.
    pub const ADDRESS: u16 = 180;
}

/// The position of the shortest pulse, high word. Register 181.
#[derive(Debug, PartialEq, Eq, Clone, Copy, Structural)]
pub struct PwmMinPosH {
    pub pwm_min_pos_h: u16,
}

impl PwmMinPosH {
    /// The address of the register.
    pub const ADDRESS: u16 = 181;
}

/// The position of the longest pulse, low word. Register 182.
#[derive(Debug, PartialEq, Eq, Clone, Copy, Structural)]
pub struct PwmMaxPosL {
    pub pwm_max_pos_l: u16,
}

impl PwmMaxPosL {
    /// The address of the register.
    pub const ADDRESS: u16 = 182;
}

/// The position of the longest pulse, high word. Register 183.
#[derive(Debug, PartialEq, Eq, Clone, Copy, Structural)]
pub struct PwmMaxPosH {
    pub pwm_max_pos_h: u16,
}

impl PwmMaxPosH {
    /// The address of the register.
    pub const ADDRESS: u16 = 183;
}

/// The kind of servo signal the pulse-width input expects. Register 184.
#[derive(Debug, PartialEq, Eq, Clone, Copy, Structural)]
pub struct PwmServoType {
    pub pwm_servo_type: u16,
}

impl PwmServoType {
    /// The address of the register.
    pub const ADDRESS: u16 = 184;
}

/// The mode the motor is in. Register 317.
///
/// | bits | field |
/// |------|-------|
/// | 0-7 | `mode_of_operation` |
/// | 8-15 | `reserve` (reserved) |
#[derive(Debug, PartialEq, Eq, Clone, Copy, Structural)]
pub struct ModeOfOperation {
    pub mode_of_operation: OrcaModeOfOperation,
    pub reserve: u8,
}

impl ModeOfOperation {
    /// The address of the register.
    pub const ADDRESS: u16 = 317;

    /// The register value: each field at its bits, the reserved bits zero.
    pub open spec fn word(self) -> u16 {
        self.mode_of_operation.byte() as u16
    }

    /// The fields that a register value holds, the reserved fields zero.
    pub open spec fn of_word(word: u16) -> ModeOfOperation {
        ModeOfOperation {
            mode_of_operation: OrcaModeOfOperation::of_field((word % 0x100) as u8),
            reserve: 0,
        }
    }

    /// True when the reserved fields are zero, as they are in every value that
    /// was read from a register.
    pub open spec fn canonical(self) -> bool {
        self.reserve == 0
    }

    /// Reads the fields from a register value.
    pub fn from_word(word: u16) -> (register: ModeOfOperation)
        ensures
            register == ModeOfOperation::of_word(word),
    {
        ModeOfOperation {
            mode_of_operation: OrcaModeOfOperation::from_primitive((word % 0x100) as u8),
            reserve: 0,
        }
    }

    /// The register value that holds the fields.
    pub fn to_word(&self) -> (word: u16)
        ensures
            word == self.word(),
    {
        self.mode_of_operation.into_primitive() as u16
    }

    /// A canonical register is read back unchanged from its value, and every
    /// register that is read from a value is canonical.
    pub proof fn lemma_word_round_trip(self, word: u16)
        ensures
            self.canonical() ==> ModeOfOperation::of_word(self.word()) == self,
            ModeOfOperation::of_word(word).canonical(),
    {
        self.mode_of_operation.lemma_byte_round_trip();
    }
}

/// The state of the calibration. Register 318.
#[derive(Debug, PartialEq, Eq, Clone, Copy, Structural)]
pub struct CalibrationStatus {
    pub calibration_status: u16,
}

impl CalibrationStatus {
    /// The address of the register.
    pub const ADDRESS: u16 = 318;
}

/// The state of the kinematic controller. Register 319.
#[derive(Debug, PartialEq, Eq, Clone, Copy, Structural)]
pub struct KinematicStatus {
    pub kinematic_status: u16,
}

impl KinematicStatus {
    /// The address of the register.
    pub const ADDRESS: u16 = 319;
}

/// The temperature of the board. Register 336.
#[derive(Debug, PartialEq, Eq, Clone, Copy, Structural)]
pub struct BoardTemp {
    pub board_temp: u16,
}

impl BoardTemp {
    /// The address of the register.
    pub const ADDRESS: u16 = 336;
}

/// The supply voltage. Register 338.
#[derive(Debug, PartialEq, Eq, Clone, Copy, Structural)]
pub struct VddFinal {
    pub vdd_final: u16,
}

impl VddFinal {
    /// The address of the register.
    pub const ADDRESS: u16 = 338;
}

/// The position of the shaft, low word. Register 342.
#[derive(Debug, PartialEq, Eq, Clone, Copy, Structural)]
pub struct ShaftPosUmL {
    pub shaft_pos_um_l: u16,
}

impl ShaftPosUmL {
    /// The address of the register.
    pub const ADDRESS: u16 = 342;
}

/// The position of the shaft, high word. Register 343.
#[derive(Debug, PartialEq, Eq, Clone, Copy, Structural)]
pub struct ShaftPosUmH {
    pub shaft_pos_um_h: u16,
}

impl ShaftPosUmH {
    /// The address of the register.
    pub const ADDRESS: u16 = 343;
}

/// The speed of the shaft, low word. Register 344.
#[derive(Debug, PartialEq, Eq, Clone, Copy, Structural)]
pub struct ShaftSpeedMmpsL {
    pub shaft_speed_mmps_l: u16,
}

impl ShaftSpeedMmpsL {
    /// The address of the register.
    pub const ADDRESS: u16 = 344;
}

/// The speed of the shaft, high word. Register 345.
#[derive(Debug, PartialEq, Eq, Clone, Copy, Structural)]
pub struct ShaftSpeedMmpsH {
    pub shaft_speed_mmps_h: u16,
}

impl ShaftSpeedMmpsH {
    /// The address of the register.
    pub const ADDRESS: u16 = 345;
}

/// The acceleration of the shaft, low word. Register 346.
#[derive(Debug, PartialEq, Eq, Clone, Copy, Structural)]
pub struct ShaftAccelMmpssL {
    pub shaft_accel_mmpss_l: u16,
}

impl ShaftAccelMmpssL {
    /// The address of the register.
    pub const ADDRESS: u16 = 346;
}

/// The acceleration of the shaft, high word. Register 347.
#[derive(Debug, PartialEq, Eq, Clone, Copy, Structural)]
pub struct ShaftAccelMmpssH {
    pub shaft_accel_mmpss_h: u16,
}

impl ShaftAccelMmpssH {
    /// The address of the register.
    pub const ADDRESS: u16 = 347;
}

/// The force on the shaft, low word. Register 348.
#[derive(Debug, PartialEq, Eq, Clone, Copy, Structural)]
pub struct ForceL {
    pub force_l: u16,
}

impl ForceL {
    /// The address of the register.
    pub const ADDRESS: u16 = 348;
}

/// The force on the shaft, high word. Register 349.
#[derive(Debug, PartialEq, Eq, Clone, Copy, Structural)]
pub struct ForceH {
    pub force_h: u16,
}

impl ForceH {
    /// The address of the register.
    pub const ADDRESS: u16 = 349;
}

/// The power drawn. Register 350.
#[derive(Debug, PartialEq, Eq, Clone, Copy, Structural)]
pub struct Power {
    pub power: u16,
}

impl Power {
    /// The address of the register.
    pub const ADDRESS: u16 = 350;
}

/// The current in half bridge A. Register 351.
#[derive(Debug, PartialEq, Eq, Clone, Copy, Structural)]
pub struct HbaCurrent {
    pub hba_current: u16,
}

impl HbaCurrent {
    /// The address of the register.
    pub const ADDRESS: u16 = 351;
}

/// The current in half bridge B. Register 352.
#[derive(Debug, PartialEq, Eq, Clone, Copy, Structural)]
pub struct HbbCurrent {
    pub hbb_current: u16,
}

impl HbbCurrent {
    /// The address of the register.
    pub const ADDRESS: u16 = 352;
}

/// The current in half bridge C. Register 353.
#[derive(Debug, PartialEq, Eq, Clone, Copy, Structural)]
pub struct HbcCurrent {
    pub hbc_current: u16,
}

impl HbcCurrent {
    /// The address of the register.
    pub const ADDRESS: u16 = 353;
}

/// The current in half bridge D. Register 354.
#[derive(Debug, PartialEq, Eq, Clone, Copy, Structural)]
pub struct HbdCurrent {
    pub hbd_current: u16,
}

impl HbdCurrent {
    /// The address of the register.
    pub const ADDRESS: u16 = 354;
}

/// The average power drawn. Register 355.
#[derive(Debug, PartialEq, Eq, Clone, Copy, Structural)]
pub struct AvgPower {
    pub avg_power: u16,
}

impl AvgPower {
    /// The address of the register.
    pub const ADDRESS: u16 = 355;
}

/// The temperature of the coil. Register 356.
#[derive(Debug, PartialEq, Eq, Clone, Copy, Structural)]
pub struct CoilTemp {
    pub coil_temp: u16,
}

impl CoilTemp {
    /// The address of the register.
    pub const ADDRESS: u16 = 356;
}

} // verus!
