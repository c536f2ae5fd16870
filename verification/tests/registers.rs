use orca_rs::register_map::AutoZeroExitMode;
use orca_rs::register_map::CoilTemp;
use orca_rs::register_map::CtrlReg0;
use orca_rs::register_map::CtrlReg1;
use orca_rs::register_map::CtrlReg2;
use orca_rs::register_map::CtrlReg3;
use orca_rs::register_map::CtrlReg4;
use orca_rs::register_map::ForceCmdH;
use orca_rs::register_map::ForceCmdL;
use orca_rs::register_map::KinSwTrig;
use orca_rs::register_map::ModeOfOperation;
use orca_rs::register_map::OrcaAutoZeroExitMode;
use orca_rs::register_map::OrcaModeOfOperation;
use orca_rs::register_map::OrcaZeroMode;
use orca_rs::register_map::PosCmdH;
use orca_rs::register_map::PosCmdL;
use orca_rs::register_map::Register;
use orca_rs::register_map::ShaftPosUmL;
use orca_rs::register_map::UnknownValue;
use orca_rs::register_map::UsrMbAddr;
use orca_rs::register_map::ZeroMode;

#[test]
fn modes_and_their_values() {
    let modes = [
        (OrcaModeOfOperation::SleepMode, 1u8),
        (OrcaModeOfOperation::ForceMode, 2),
        (OrcaModeOfOperation::PositionMode, 3),
        (OrcaModeOfOperation::HapticMode, 4),
        (OrcaModeOfOperation::KineticMode, 5),
        (OrcaModeOfOperation::PulseWidthMode, 11),
        (OrcaModeOfOperation::AutoZeroingMode, 55),
    ];
    for (mode, value) in modes {
        assert_eq!(u8::from(mode), value);
        assert_eq!(mode.into_primitive(), value);
        assert_eq!(OrcaModeOfOperation::try_from(value), Ok(mode));
        assert_eq!(OrcaModeOfOperation::from_primitive(value), mode);
        assert_eq!(OrcaModeOfOperation::from_byte_or_default(value), mode);
    }
    assert_eq!(OrcaModeOfOperation::default(), OrcaModeOfOperation::SleepMode);
}

#[test]
fn values_that_name_no_mode() {
    let mut unknown = 0;
    for value in 0..=255u8 {
        if ![1, 2, 3, 4, 5, 11, 55].contains(&value) {
            unknown += 1;
            assert_eq!(OrcaModeOfOperation::try_from(value), Err(UnknownValue(value)));
            assert_eq!(
                OrcaModeOfOperation::from_byte_or_default(value),
                OrcaModeOfOperation::SleepMode
            );
            assert_eq!(
                OrcaModeOfOperation::from_primitive(value),
                OrcaModeOfOperation::AutoZeroingMode
            );
        }
    }
    assert_eq!(unknown, 249);
}

#[test]
fn zero_modes_and_their_values() {
    let modes = [
        (OrcaZeroMode::NegativeZeroing, 0u8),
        (OrcaZeroMode::ManualZeroing, 1),
        (OrcaZeroMode::AutoZeroEnabled, 2),
        (OrcaZeroMode::AutoZeroOnBoot, 3),
        (OrcaZeroMode::IOSHAutoZeroing, 4),
    ];
    for (mode, value) in modes {
        assert_eq!(u8::from(mode), value);
        assert_eq!(OrcaZeroMode::try_from(value), Ok(mode));
        assert_eq!(OrcaZeroMode::from_primitive(value), mode);
    }
    assert_eq!(OrcaZeroMode::try_from(5), Err(UnknownValue(5)));
    assert_eq!(OrcaZeroMode::from_primitive(5), OrcaZeroMode::IOSHAutoZeroing);
    assert_eq!(OrcaZeroMode::default(), OrcaZeroMode::NegativeZeroing);
}

#[test]
fn auto_zero_exit_modes_and_their_values() {
    let modes = [
        (OrcaAutoZeroExitMode::SleepMode, 1u8),
        (OrcaAutoZeroExitMode::ForceMode, 2),
        (OrcaAutoZeroExitMode::PositionMode, 3),
        (OrcaAutoZeroExitMode::HapticMode, 4),
        (OrcaAutoZeroExitMode::KineticMode, 5),
        (OrcaAutoZeroExitMode::PulseWidthMode, 11),
    ];
    for (mode, value) in modes {
        assert_eq!(u8::from(mode), value);
        assert_eq!(OrcaAutoZeroExitMode::try_from(value), Ok(mode));
        assert_eq!(OrcaAutoZeroExitMode::from_primitive(value), mode);
    }
    assert_eq!(OrcaAutoZeroExitMode::try_from(55), Err(UnknownValue(55)));
    assert_eq!(OrcaAutoZeroExitMode::try_from(0), Err(UnknownValue(0)));
    assert_eq!(OrcaAutoZeroExitMode::from_primitive(0), OrcaAutoZeroExitMode::PulseWidthMode);
    assert_eq!(OrcaAutoZeroExitMode::default(), OrcaAutoZeroExitMode::SleepMode);
}

#[test]
fn register_addresses() {
    assert_eq!(CtrlReg0::ADDRESS, 0);
    assert_eq!(CtrlReg1::ADDRESS, 1);
    assert_eq!(CtrlReg2::ADDRESS, 2);
    assert_eq!(CtrlReg3::ADDRESS, 3);
    assert_eq!(CtrlReg4::ADDRESS, 4);
    assert_eq!(KinSwTrig::ADDRESS, 9);
    assert_eq!(ForceCmdL::ADDRESS, 28);
    assert_eq!(ForceCmdH::ADDRESS, 29);
    assert_eq!(PosCmdL::ADDRESS, 30);
    assert_eq!(PosCmdH::ADDRESS, 31);
    assert_eq!(UsrMbAddr::ADDRESS, 169);
    assert_eq!(ZeroMode::ADDRESS, 171);
    assert_eq!(AutoZeroExitMode::ADDRESS, 173);
    assert_eq!(ModeOfOperation::ADDRESS, 317);
    assert_eq!(ShaftPosUmL::ADDRESS, 342);
    assert_eq!(CoilTemp::ADDRESS, 356);
}

#[test]
fn a_plain_register_holds_its_word() {
    let register = PosCmdL { pos_cmd_l: 0x2EE0 };
    assert_eq!(register.pos_cmd_l, 0x2EE0);
    assert_eq!(register, PosCmdL { pos_cmd_l: 12000 });
}

#[test]
fn control_register_0_bits() {
    assert_eq!(
        CtrlReg0::from_word(0x0001),
        CtrlReg0 {
            reset: true,
            clear_errors: false,
            zero_position: false,
            invert_position: false,
            reserve: 0
        }
    );
    let all = CtrlReg0 {
        reset: true,
        clear_errors: true,
        zero_position: true,
        invert_position: true,
        reserve: 0,
    };
    assert_eq!(CtrlReg0::from_word(0xFFFF), all);
    assert_eq!(all.to_word(), 0x000F);
    let clear = CtrlReg0 { clear_errors: true, reset: false, reserve: 0xFFF, ..all };
    assert_eq!(clear.to_word(), 0x000E);
    for word in 0..=u16::MAX {
        assert_eq!(CtrlReg0::from_word(word).to_word(), word & 0x000F);
    }
}

#[test]
fn control_register_1_bits() {
    let register = CtrlReg1::from_word(0x0400);
    assert!(register.position_controller_gain_set_flag);
    assert!(!register.current_controller_gain_set_flag);
    assert_eq!(register.to_word(), 0x0400);
    for word in 0..=u16::MAX {
        assert_eq!(CtrlReg1::from_word(word).to_word(), word & 0x0C00);
    }
}

#[test]
fn control_register_2_bits() {
    let register = CtrlReg2::from_word(0x0110);
    assert!(register.tuning_save);
    assert!(register.haptic_config_save);
    assert!(!register.user_opt_save && !register.motion_config_save && !register.iosh_save);
    for word in 0..=u16::MAX {
        assert_eq!(CtrlReg2::from_word(word).to_word(), word & 0x01F0);
    }
}

#[test]
fn control_register_3_holds_the_mode_in_its_low_byte() {
    let register = CtrlReg3 { mode: OrcaModeOfOperation::PositionMode, reserve: 0 };
    assert_eq!(register.to_word(), 3);
    assert_eq!(CtrlReg3::from_word(0x0003), register);
    assert_eq!(CtrlReg3::from_word(0xAB0B).mode, OrcaModeOfOperation::PulseWidthMode);
    assert_eq!(CtrlReg3::from_word(0x0000).mode, OrcaModeOfOperation::AutoZeroingMode);
    assert_eq!(CtrlReg3 { mode: OrcaModeOfOperation::AutoZeroingMode, reserve: 9 }.to_word(), 55);
}

#[test]
fn control_register_4_bits() {
    let register = CtrlReg4::from_word(0x0082);
    assert!(register.tuning_defaults);
    assert!(register.pwm_defaults);
    assert!(!register.reserve);
    assert!(!register.kinematic_defaults);
    for word in 0..=u16::MAX {
        assert_eq!(CtrlReg4::from_word(word).to_word(), word & 0x00FE);
    }
}

#[test]
fn kinematic_trigger_holds_four_bits() {
    assert_eq!(KinSwTrig::from_word(0x1237), KinSwTrig { motion_id: 7, reserve: 0 });
    assert_eq!(KinSwTrig { motion_id: 0x1F, reserve: 0 }.to_word(), 0x000F);
    assert_eq!(KinSwTrig { motion_id: 9, reserve: 0xFFF }.to_word(), 9);
}

#[test]
fn mode_registers_hold_their_enum_in_the_low_byte() {
    assert_eq!(
        ModeOfOperation::from_word(0x0002),
        ModeOfOperation { mode_of_operation: OrcaModeOfOperation::ForceMode, reserve: 0 }
    );
    assert_eq!(
        ModeOfOperation { mode_of_operation: OrcaModeOfOperation::KineticMode, reserve: 1 }
            .to_word(),
        5
    );
    assert_eq!(
        ZeroMode::from_word(0x0102),
        ZeroMode { zero_mode: OrcaZeroMode::AutoZeroEnabled, reserve: 0 }
    );
    assert_eq!(ZeroMode { zero_mode: OrcaZeroMode::AutoZeroOnBoot, reserve: 0 }.to_word(), 3);
    assert_eq!(
        AutoZeroExitMode::from_word(0x000B),
        AutoZeroExitMode { auto_zero_exit_mode: OrcaAutoZeroExitMode::PulseWidthMode, reserve: 0 }
    );
    assert_eq!(
        AutoZeroExitMode { auto_zero_exit_mode: OrcaAutoZeroExitMode::HapticMode, reserve: 0 }
            .to_word(),
        4
    );
}

#[test]
fn the_catalogue_has_seventy_one_registers_each_at_its_own_address() {
    let mut found = 0;
    for address in 0..=u16::MAX {
        if let Some(register) = Register::from_address(address) {
            found += 1;
            assert_eq!(register.address(), address);
        }
    }
    assert_eq!(found, 71);
}

#[test]
fn registers_are_found_by_address() {
    assert_eq!(Register::from_address(0), Some(Register::CtrlReg0));
    assert_eq!(Register::from_address(3), Some(Register::CtrlReg3));
    assert_eq!(Register::from_address(30), Some(Register::PosCmdL));
    assert_eq!(Register::from_address(317), Some(Register::ModeOfOperation));
    assert_eq!(Register::from_address(356), Some(Register::CoilTemp));
    assert_eq!(Register::from_address(5), None);
    assert_eq!(Register::from_address(357), None);
    assert_eq!(Register::from_address(u16::MAX), None);
    assert_eq!(Register::ModeOfOperation.address(), ModeOfOperation::ADDRESS);
    assert_eq!(Register::CtrlReg3.address(), CtrlReg3::ADDRESS);
    assert_eq!(Register::ShaftPosUmL.address(), ShaftPosUmL::ADDRESS);
}
