use orca_rs::pdu_payload::OrcaErrors;
use orca_rs::pdu_payload::ERROR_FLAG_BITS;

#[test]
fn no_bit_no_flag() {
    let errors = OrcaErrors::from(0u16);
    assert_eq!(errors, OrcaErrors::default());
    assert!(!errors.configuration_errors);
    assert!(!errors.auto_zero_failed);
    assert_eq!(u16::from(errors), 0);
}

#[test]
fn each_flag_has_its_bit() {
    let d = OrcaErrors::default();
    let cases = [
        (0x0001u16, OrcaErrors { configuration_errors: true, ..d }),
        (0x0020, OrcaErrors { force_clipping: true, ..d }),
        (0x0040, OrcaErrors { temperature_exceeded: true, ..d }),
        (0x0080, OrcaErrors { force_exceeded: true, ..d }),
        (0x0100, OrcaErrors { power_exceeded: true, ..d }),
        (0x0200, OrcaErrors { shaft_image_failed: true, ..d }),
        (0x0400, OrcaErrors { voltage_invalid: true, ..d }),
        (0x0800, OrcaErrors { communication_timeout: true, ..d }),
        (0x2000, OrcaErrors { auto_zero_failed: true, ..d }),
    ];
    for (word, errors) in cases {
        assert_eq!(OrcaErrors::from(word), errors);
        assert_eq!(u16::from(errors), word);
    }
}

#[test]
fn reserved_bits_are_read_as_nothing() {
    for word in [0x0002u16, 0x0004, 0x0008, 0x0010, 0x1000, 0x4000, 0x8000, 0xD01E] {
        assert_eq!(OrcaErrors::from(word), OrcaErrors::default());
    }
}

#[test]
fn reserved_fields_are_written_as_zeros() {
    let errors = OrcaErrors {
        reserve0: 0x0F,
        reserve1: 1,
        reserve2: 3,
        voltage_invalid: true,
        ..OrcaErrors::default()
    };
    assert_eq!(u16::from(errors), 0x0400);
}

#[test]
fn every_word_keeps_its_flag_bits_and_loses_the_rest() {
    assert_eq!(ERROR_FLAG_BITS, 0x2FE1);
    for word in 0..=u16::MAX {
        let errors = OrcaErrors::from(word);
        assert_eq!(errors.reserve0, 0);
        assert_eq!(errors.reserve1, 0);
        assert_eq!(errors.reserve2, 0);
        assert_eq!(u16::from(errors), word & ERROR_FLAG_BITS);
        assert_eq!(OrcaErrors::from(u16::from(errors)), errors);
    }
}

#[test]
fn all_flags_raised() {
    let errors = OrcaErrors::from(0xFFFF);
    assert!(errors.configuration_errors);
    assert!(errors.force_clipping);
    assert!(errors.temperature_exceeded);
    assert!(errors.force_exceeded);
    assert!(errors.power_exceeded);
    assert!(errors.shaft_image_failed);
    assert!(errors.voltage_invalid);
    assert!(errors.communication_timeout);
    assert!(errors.auto_zero_failed);
    assert_eq!(u16::from(errors), 0x2FE1);
}
