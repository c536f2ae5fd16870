use orca_rs::pdu_payload::FrameError;
use orca_rs::pdu_payload::FunctionCode;
use orca_rs::pdu_payload::ManageHighSpeedRequestPDUPayload;
use orca_rs::pdu_payload::ManageHighSpeedRequestSubFunctionCode;
use orca_rs::pdu_payload::ManageHighSpeedResponsePDUPayload;
use orca_rs::pdu_payload::MotorCommandRequestPDUPayload;
use orca_rs::pdu_payload::MotorCommandResponsePDUPayload;
use orca_rs::pdu_payload::MotorReadRequestPDUPayload;
use orca_rs::pdu_payload::MotorReadResponsePDUPayload;
use orca_rs::pdu_payload::MotorWriteRequestPDUPayload;
use orca_rs::pdu_payload::MotorWriteResponsePDUPayload;
use orca_rs::pdu_payload::OrcaErrors;
use orca_rs::pdu_payload::OrcaHighSpeedRequestADU;
use orca_rs::pdu_payload::OrcaHighSpeedRequestPDU;
use orca_rs::pdu_payload::OrcaHighSpeedResponseADU;
use orca_rs::pdu_payload::OrcaHighSpeedResponsePDU;
use orca_rs::register_map::OrcaModeOfOperation;

fn status() -> MotorCommandResponsePDUPayload {
    MotorCommandResponsePDUPayload {
        position_um: 12000,
        force_mn: 80000,
        power_w: 25,
        temperature_c: 24,
        voltage_mv: 24150,
        error: OrcaErrors::default(),
    }
}

fn every_request_pdu() -> Vec<OrcaHighSpeedRequestPDU> {
    vec![
        OrcaHighSpeedRequestPDU::Manage(ManageHighSpeedRequestPDUPayload {
            sub_function_code: ManageHighSpeedRequestSubFunctionCode::Enable,
            baud_rate: 625000,
            delay_us: 50,
        }),
        OrcaHighSpeedRequestPDU::Manage(ManageHighSpeedRequestPDUPayload::default()),
        OrcaHighSpeedRequestPDU::Command(MotorCommandRequestPDUPayload::ForceControlStream {
            force_mn: 1000,
        }),
        OrcaHighSpeedRequestPDU::Command(MotorCommandRequestPDUPayload::ForceControlStream {
            force_mn: i32::MIN,
        }),
        OrcaHighSpeedRequestPDU::Command(MotorCommandRequestPDUPayload::PositionControlStream {
            position_um: -1,
        }),
        OrcaHighSpeedRequestPDU::Command(MotorCommandRequestPDUPayload::PositionControlStream {
            position_um: i32::MAX,
        }),
        OrcaHighSpeedRequestPDU::Command(MotorCommandRequestPDUPayload::KinematicDataStream {}),
        OrcaHighSpeedRequestPDU::Command(MotorCommandRequestPDUPayload::HapticDataStream {
            haptic_status_register: 0x1234_5678,
        }),
        OrcaHighSpeedRequestPDU::Command(MotorCommandRequestPDUPayload::SleepDataStream {}),
        OrcaHighSpeedRequestPDU::Read(MotorReadRequestPDUPayload {
            register_address: 317,
            register_width: 2,
        }),
        OrcaHighSpeedRequestPDU::Write(MotorWriteRequestPDUPayload {
            register_address: 30,
            register_width: 2,
            register_data: 80000,
        }),
    ]
}

fn every_response_pdu() -> Vec<OrcaHighSpeedResponsePDU> {
    vec![
        OrcaHighSpeedResponsePDU::Manage(ManageHighSpeedResponsePDUPayload {
            state_command: ManageHighSpeedRequestSubFunctionCode::Enable,
            baud_rate: 625000,
            delay_us: 50,
        }),
        OrcaHighSpeedResponsePDU::Command(status()),
        OrcaHighSpeedResponsePDU::Read(MotorReadResponsePDUPayload {
            read_register_value: 3,
            mode_of_operation: OrcaModeOfOperation::PositionMode,
            command_response: status(),
        }),
        OrcaHighSpeedResponsePDU::Write(MotorWriteResponsePDUPayload {
            mode_of_operation: OrcaModeOfOperation::ForceMode,
            command_response: status(),
        }),
    ]
}

#[test]
fn manage_enable_request_bytes() {
    let adu = OrcaHighSpeedRequestADU::new(
        1,
        OrcaHighSpeedRequestPDU::Manage(ManageHighSpeedRequestPDUPayload {
            sub_function_code: ManageHighSpeedRequestSubFunctionCode::Enable,
            baud_rate: 625000,
            delay_us: 50,
        }),
    );
    assert_eq!(adu.crc, 0xC1A4);
    assert_eq!(
        adu.to_vec(),
        vec![0x01, 0x41, 0xFF, 0x00, 0x00, 0x09, 0x89, 0x68, 0x00, 0x32, 0xA4, 0xC1]
    );
}

#[test]
fn manage_disable_request_bytes() {
    let adu = OrcaHighSpeedRequestADU::new(
        1,
        OrcaHighSpeedRequestPDU::Manage(ManageHighSpeedRequestPDUPayload::default()),
    );
    assert_eq!(
        adu.to_vec(),
        vec![0x01, 0x41, 0x00, 0x00, 0x00, 0x00, 0x00, 0x00, 0x00, 0x00, 0x1D, 0x91]
    );
}

#[test]
fn force_request_bytes() {
    let adu = OrcaHighSpeedRequestADU::new(
        1,
        OrcaHighSpeedRequestPDU::Command(MotorCommandRequestPDUPayload::ForceControlStream {
            force_mn: 1000,
        }),
    );
    assert_eq!(adu.to_vec(), vec![0x01, 0x64, 0x1C, 0x00, 0x00, 0x03, 0xE8, 0xD2, 0x98]);
}

#[test]
fn negative_position_travels_in_twos_complement() {
    let adu = OrcaHighSpeedRequestADU::new(
        7,
        OrcaHighSpeedRequestPDU::Command(MotorCommandRequestPDUPayload::PositionControlStream {
            position_um: -1,
        }),
    );
    assert_eq!(adu.to_vec(), vec![0x07, 0x64, 0x1E, 0xFF, 0xFF, 0xFF, 0xFF, 0xCC, 0x72]);
}

#[test]
fn kinematic_request_bytes() {
    let adu = OrcaHighSpeedRequestADU::new(
        1,
        OrcaHighSpeedRequestPDU::Command(MotorCommandRequestPDUPayload::KinematicDataStream {}),
    );
    assert_eq!(adu.to_vec(), vec![0x01, 0x64, 0x20, 0x00, 0x00, 0x00, 0x00, 0x82, 0x23]);
}

#[test]
fn haptic_request_bytes() {
    let adu = OrcaHighSpeedRequestADU::new(
        1,
        OrcaHighSpeedRequestPDU::Command(MotorCommandRequestPDUPayload::HapticDataStream {
            haptic_status_register: 0x1234_5678,
        }),
    );
    assert_eq!(adu.to_vec(), vec![0x01, 0x64, 0x22, 0x12, 0x34, 0x56, 0x78, 0x80, 0xD7]);
}

#[test]
fn sleep_request_fills_its_slot_with_zeros() {
    let adu = OrcaHighSpeedRequestADU::new(
        1,
        OrcaHighSpeedRequestPDU::Command(MotorCommandRequestPDUPayload::SleepDataStream {}),
    );
    assert_eq!(adu.to_vec(), vec![0x01, 0x64, 0x00, 0x00, 0x00, 0x00, 0x00, 0x03, 0xE4]);
}

#[test]
fn read_request_bytes() {
    let adu = OrcaHighSpeedRequestADU::new(
        1,
        OrcaHighSpeedRequestPDU::Read(MotorReadRequestPDUPayload {
            register_address: 317,
            register_width: 2,
        }),
    );
    assert_eq!(adu.to_vec(), vec![0x01, 0x68, 0x01, 0x3D, 0x02, 0xC5, 0x31]);
}

#[test]
fn write_request_bytes() {
    let adu = OrcaHighSpeedRequestADU::new(
        1,
        OrcaHighSpeedRequestPDU::Write(MotorWriteRequestPDUPayload {
            register_address: 30,
            register_width: 2,
            register_data: 80000,
        }),
    );
    assert_eq!(
        adu.to_vec(),
        vec![0x01, 0x69, 0x00, 0x1E, 0x02, 0x00, 0x01, 0x38, 0x80, 0xF8, 0xFC]
    );
}

#[test]
fn every_request_is_read_back_as_it_was() {
    for address in [0u8, 1, 7, 255] {
        for pdu in every_request_pdu() {
            let adu = OrcaHighSpeedRequestADU::new(address, pdu);
            let bytes = adu.to_vec();
            assert_eq!(bytes.len(), 1 + pdu.code().request_pdu_len() + 2);
            assert_eq!(OrcaHighSpeedRequestADU::from_bytes(&bytes), Ok(adu));
        }
    }
}

#[test]
fn every_response_is_read_back_as_it_was() {
    for address in [0u8, 1, 7, 255] {
        for pdu in every_response_pdu() {
            let adu = OrcaHighSpeedResponseADU::new(address, pdu);
            let bytes = adu.to_vec();
            assert_eq!(OrcaHighSpeedResponseADU::from_bytes(&bytes), Ok(adu));
        }
    }
}

#[test]
fn every_pdu_is_read_back_as_it_was() {
    for pdu in every_request_pdu() {
        let mut bytes = Vec::new();
        pdu.write(&mut bytes);
        assert_eq!(OrcaHighSpeedRequestPDU::from_bytes(&bytes), Ok(pdu));
    }
    for pdu in every_response_pdu() {
        let mut bytes = Vec::new();
        pdu.write(&mut bytes);
        assert_eq!(OrcaHighSpeedResponsePDU::from_bytes(&bytes), Ok(pdu));
    }
}

#[test]
fn write_appends_to_what_is_there() {
    let mut bytes = vec![0xAA, 0xBB];
    MotorReadRequestPDUPayload { register_address: 0x0102, register_width: 4 }.write(&mut bytes);
    assert_eq!(bytes, vec![0xAA, 0xBB, 0x01, 0x02, 0x04]);
    MotorWriteRequestPDUPayload { register_address: 0x0304, register_width: 2, register_data: 5 }
        .write(&mut bytes);
    assert_eq!(
        bytes,
        vec![0xAA, 0xBB, 0x01, 0x02, 0x04, 0x03, 0x04, 0x02, 0x00, 0x00, 0x00, 0x05]
    );
}

#[test]
fn response_length_is_fixed_by_the_function_code() {
    let requests = every_request_pdu();
    let responses = every_response_pdu();
    for request in requests.iter() {
        let request_adu = OrcaHighSpeedRequestADU::new(1, *request);
        for response in responses.iter() {
            if response.code() == request.code() {
                let bytes = OrcaHighSpeedResponseADU::new(1, *response).to_vec();
                assert_eq!(request_adu.num_response_bytes(), bytes.len());
            }
        }
    }
}

#[test]
fn response_lengths_are_twelve_nineteen_twenty_four_and_twenty() {
    let lengths: Vec<usize> = [0usize, 2, 9, 10]
        .iter()
        .map(|i| OrcaHighSpeedRequestADU::new(1, every_request_pdu()[*i]).num_response_bytes())
        .collect();
    assert_eq!(lengths, vec![12, 19, 24, 20]);
    assert_eq!(FunctionCode::Manage.response_pdu_len(), 9);
    assert_eq!(FunctionCode::Command.response_pdu_len(), 16);
    assert_eq!(FunctionCode::Read.response_pdu_len(), 21);
    assert_eq!(FunctionCode::Write.response_pdu_len(), 17);
    assert_eq!(FunctionCode::Manage.request_pdu_len(), 9);
    assert_eq!(FunctionCode::Command.request_pdu_len(), 6);
    assert_eq!(FunctionCode::Read.request_pdu_len(), 4);
    assert_eq!(FunctionCode::Write.request_pdu_len(), 8);
}

#[test]
fn function_codes_and_their_bytes() {
    assert_eq!(u8::from(FunctionCode::Manage), 0x41);
    assert_eq!(u8::from(FunctionCode::Command), 0x64);
    assert_eq!(u8::from(FunctionCode::Read), 0x68);
    assert_eq!(u8::from(FunctionCode::Write), 0x69);
    for byte in 0..=255u8 {
        match FunctionCode::try_from(byte) {
            Ok(code) => assert_eq!(u8::from(code), byte),
            Err(e) => {
                assert_eq!(e, FrameError::UnknownFunctionCode);
                assert!(![0x41, 0x64, 0x68, 0x69].contains(&byte));
            }
        }
    }
}

#[test]
fn sub_function_codes_and_their_values() {
    assert_eq!(u16::from(ManageHighSpeedRequestSubFunctionCode::Enable), 0xFF00);
    assert_eq!(u16::from(ManageHighSpeedRequestSubFunctionCode::Disable), 0x0000);
    assert_eq!(
        ManageHighSpeedRequestSubFunctionCode::try_from(0xFF00),
        Ok(ManageHighSpeedRequestSubFunctionCode::Enable)
    );
    assert_eq!(
        ManageHighSpeedRequestSubFunctionCode::try_from(0x0000),
        Ok(ManageHighSpeedRequestSubFunctionCode::Disable)
    );
    assert_eq!(
        ManageHighSpeedRequestSubFunctionCode::try_from(0x00FF),
        Err(FrameError::UnknownSubFunctionCode)
    );
    assert_eq!(
        ManageHighSpeedRequestSubFunctionCode::default(),
        ManageHighSpeedRequestSubFunctionCode::Disable
    );
}

#[test]
fn command_response_frame_is_decoded() {
    let bytes = vec![
        0x01, 0x64, 0x00, 0x00, 0x2E, 0xE0, 0x00, 0x01, 0x38, 0x80, 0x00, 0x19, 0x18, 0x5E, 0x56,
        0x00, 0x00, 0x5B, 0x8C,
    ];
    let adu = OrcaHighSpeedResponseADU::from_bytes(&bytes).unwrap();
    assert_eq!(adu.slave_address, 1);
    assert_eq!(adu.pdu, OrcaHighSpeedResponsePDU::Command(status()));
    assert_eq!(adu.crc, 0x8C5B);
}

#[test]
fn command_response_with_negative_fields_and_all_error_bits() {
    let bytes = vec![
        0x01, 0x64, 0xFF, 0xFF, 0xFF, 0xFE, 0x80, 0x00, 0x00, 0x00, 0xFF, 0xFF, 0xFF, 0xFF, 0xFF,
        0xFF, 0xFF, 0x12, 0xDE,
    ];
    let adu = OrcaHighSpeedResponseADU::from_bytes(&bytes).unwrap();
    let expected = MotorCommandResponsePDUPayload {
        position_um: -2,
        force_mn: i32::MIN,
        power_w: 0xFFFF,
        temperature_c: 0xFF,
        voltage_mv: 0xFFFF,
        error: OrcaErrors {
            configuration_errors: true,
            reserve0: 0,
            force_clipping: true,
            temperature_exceeded: true,
            force_exceeded: true,
            power_exceeded: true,
            shaft_image_failed: true,
            voltage_invalid: true,
            communication_timeout: true,
            reserve1: 0,
            auto_zero_failed: true,
            reserve2: 0,
        },
    };
    assert_eq!(adu.pdu, OrcaHighSpeedResponsePDU::Command(expected));
}

#[test]
fn read_response_frame_is_decoded() {
    let bytes = vec![
        0x01, 0x68, 0x00, 0x00, 0x00, 0x03, 0x03, 0x00, 0x00, 0x2E, 0xE0, 0x00, 0x01, 0x38, 0x80,
        0x00, 0x19, 0x18, 0x5E, 0x56, 0x00, 0x00, 0x8B, 0xAF,
    ];
    let adu = OrcaHighSpeedResponseADU::from_bytes(&bytes).unwrap();
    assert_eq!(
        adu.pdu,
        OrcaHighSpeedResponsePDU::Read(MotorReadResponsePDUPayload {
            read_register_value: 3,
            mode_of_operation: OrcaModeOfOperation::PositionMode,
            command_response: status(),
        })
    );
}

#[test]
fn write_response_frame_is_decoded() {
    let bytes = vec![
        0x01, 0x69, 0x02, 0x00, 0x00, 0x2E, 0xE0, 0x00, 0x01, 0x38, 0x80, 0x00, 0x19, 0x18, 0x5E,
        0x56, 0x00, 0x00, 0x0F, 0xB2,
    ];
    let adu = OrcaHighSpeedResponseADU::from_bytes(&bytes).unwrap();
    assert_eq!(
        adu.pdu,
        OrcaHighSpeedResponsePDU::Write(MotorWriteResponsePDUPayload {
            mode_of_operation: OrcaModeOfOperation::ForceMode,
            command_response: status(),
        })
    );
}

#[test]
fn unknown_mode_in_a_read_response_reads_as_the_default_mode() {
    let bytes = vec![
        0x01, 0x68, 0x00, 0x00, 0x00, 0x03, 0x63, 0x00, 0x00, 0x2E, 0xE0, 0x00, 0x01, 0x38, 0x80,
        0x00, 0x19, 0x18, 0x5E, 0x56, 0x00, 0x00, 0xA3, 0x87,
    ];
    let adu = OrcaHighSpeedResponseADU::from_bytes(&bytes).unwrap();
    match adu.pdu {
        OrcaHighSpeedResponsePDU::Read(payload) => {
            assert_eq!(payload.mode_of_operation, OrcaModeOfOperation::SleepMode);
            assert_eq!(payload.read_register_value, 3);
            assert_eq!(payload.command_response, status());
        }
        other => panic!("not a Read response: {:?}", other),
    }
}

#[test]
fn unknown_mode_in_a_write_response_reads_as_the_default_mode() {
    let bytes = vec![
        0x01, 0x69, 0x00, 0x00, 0x00, 0x2E, 0xE0, 0x00, 0x01, 0x38, 0x80, 0x00, 0x19, 0x18, 0x5E,
        0x56, 0x00, 0x00, 0x8E, 0xD3,
    ];
    let adu = OrcaHighSpeedResponseADU::from_bytes(&bytes).unwrap();
    match adu.pdu {
        OrcaHighSpeedResponsePDU::Write(payload) => {
            assert_eq!(payload.mode_of_operation, OrcaModeOfOperation::SleepMode);
            assert_eq!(payload.command_response, status());
        }
        other => panic!("not a Write response: {:?}", other),
    }
}

#[test]
fn every_mode_byte_is_tolerated_in_a_write_payload() {
    for byte in 0..=255u8 {
        let mut bytes = vec![byte];
        status().write(&mut bytes);
        let payload = MotorWriteResponsePDUPayload::from_bytes(&bytes).unwrap();
        let expected =
            OrcaModeOfOperation::try_from(byte).unwrap_or(OrcaModeOfOperation::SleepMode);
        assert_eq!(payload.mode_of_operation, expected);
    }
}

#[test]
fn corrupted_checksum_is_a_checksum_mismatch() {
    let mut bytes = vec![
        0x01, 0x64, 0x00, 0x00, 0x2E, 0xE0, 0x00, 0x01, 0x38, 0x80, 0x00, 0x19, 0x18, 0x5E, 0x56,
        0x00, 0x00, 0x5B, 0x8C,
    ];
    bytes[17] ^= 0x01;
    assert_eq!(OrcaHighSpeedResponseADU::from_bytes(&bytes), Err(FrameError::ChecksumMismatch));
}

#[test]
fn corrupted_field_is_a_checksum_mismatch() {
    let mut bytes = vec![
        0x01, 0x64, 0x00, 0x00, 0x2E, 0xE0, 0x00, 0x01, 0x38, 0x80, 0x00, 0x19, 0x18, 0x5E, 0x56,
        0x00, 0x00, 0x5B, 0x8C,
    ];
    bytes[5] ^= 0x80;
    assert_eq!(OrcaHighSpeedResponseADU::from_bytes(&bytes), Err(FrameError::ChecksumMismatch));
}

#[test]
fn every_single_bit_flip_before_the_checksum_is_rejected() {
    for pdu in every_response_pdu() {
        let frame = OrcaHighSpeedResponseADU::new(3, pdu).to_vec();
        for index in 0..frame.len() - 2 {
            for bit in 0..8 {
                let mut flipped = frame.clone();
                flipped[index] ^= 1u8 << bit;
                assert!(OrcaHighSpeedResponseADU::from_bytes(&flipped).is_err());
            }
        }
    }
    for pdu in every_request_pdu() {
        let frame = OrcaHighSpeedRequestADU::new(3, pdu).to_vec();
        for index in 0..frame.len() - 2 {
            for bit in 0..8 {
                let mut flipped = frame.clone();
                flipped[index] ^= 1u8 << bit;
                assert!(OrcaHighSpeedRequestADU::from_bytes(&flipped).is_err());
            }
        }
    }
}

#[test]
fn unknown_function_code_is_refused() {
    let bytes = vec![0x01, 0x42, 0x00, 0x00, 0x00, 0x00, 0x00, 0x00, 0x00, 0x00, 0x00, 0x00];
    assert_eq!(
        OrcaHighSpeedResponseADU::from_bytes(&bytes),
        Err(FrameError::UnknownFunctionCode)
    );
    assert_eq!(
        OrcaHighSpeedRequestADU::from_bytes(&bytes),
        Err(FrameError::UnknownFunctionCode)
    );
    assert_eq!(
        OrcaHighSpeedResponsePDU::from_bytes(&[0x03, 0x02, 0x00, 0x01]),
        Err(FrameError::UnknownFunctionCode)
    );
}

#[test]
fn unknown_sub_function_code_is_refused() {
    let bytes = vec![0x01, 0x41, 0x12, 0x34, 0x00, 0x09, 0x89, 0x68, 0x00, 0x32, 0x00, 0x00];
    assert_eq!(
        OrcaHighSpeedResponseADU::from_bytes(&bytes),
        Err(FrameError::UnknownSubFunctionCode)
    );
    assert_eq!(
        ManageHighSpeedRequestPDUPayload::from_bytes(&bytes[2..]),
        Err(FrameError::UnknownSubFunctionCode)
    );
}

#[test]
fn short_input_is_truncated() {
    let full = vec![
        0x01, 0x64, 0x00, 0x00, 0x2E, 0xE0, 0x00, 0x01, 0x38, 0x80, 0x00, 0x19, 0x18, 0x5E, 0x56,
        0x00, 0x00, 0x5B, 0x8C,
    ];
    for len in 0..full.len() {
        assert_eq!(
            OrcaHighSpeedResponseADU::from_bytes(&full[..len]),
            Err(FrameError::Truncated),
            "length {}",
            len
        );
    }
    assert!(OrcaHighSpeedResponseADU::from_bytes(&full).is_ok());
}

#[test]
fn short_payloads_are_truncated() {
    assert_eq!(
        ManageHighSpeedRequestPDUPayload::from_bytes(&[0xFF; 7]),
        Err(FrameError::Truncated)
    );
    assert_eq!(
        ManageHighSpeedResponsePDUPayload::from_bytes(&[0x00; 7]),
        Err(FrameError::Truncated)
    );
    assert_eq!(MotorCommandRequestPDUPayload::from_bytes(&[0x1C; 4]), Err(FrameError::Truncated));
    assert_eq!(MotorCommandRequestPDUPayload::from_bytes(&[]), Err(FrameError::Truncated));
    assert_eq!(MotorReadRequestPDUPayload::from_bytes(&[0; 2]), Err(FrameError::Truncated));
    assert_eq!(MotorWriteRequestPDUPayload::from_bytes(&[0; 6]), Err(FrameError::Truncated));
    assert_eq!(MotorCommandResponsePDUPayload::from_bytes(&[0; 14]), Err(FrameError::Truncated));
    assert_eq!(MotorReadResponsePDUPayload::from_bytes(&[0; 19]), Err(FrameError::Truncated));
    assert_eq!(MotorWriteResponsePDUPayload::from_bytes(&[0; 15]), Err(FrameError::Truncated));
    assert_eq!(OrcaHighSpeedRequestPDU::from_bytes(&[]), Err(FrameError::Truncated));
    assert_eq!(
        OrcaHighSpeedRequestPDU::from_bytes(&[0x68, 0x01, 0x3D]),
        Err(FrameError::Truncated)
    );
}

#[test]
fn structure_is_judged_before_the_checksum() {
    let bytes = vec![0x01, 0x64, 0x00, 0x00];
    assert_eq!(OrcaHighSpeedResponseADU::from_bytes(&bytes), Err(FrameError::Truncated));
    let bytes = vec![0x01, 0x00, 0xFF, 0xFF];
    assert_eq!(
        OrcaHighSpeedResponseADU::from_bytes(&bytes),
        Err(FrameError::UnknownFunctionCode)
    );
}

#[test]
fn bytes_after_a_payload_are_left_alone() {
    let payload =
        MotorCommandRequestPDUPayload::from_bytes(&[0x1E, 0x00, 0x00, 0x2E, 0xE0, 0xAA, 0xBB]);
    assert_eq!(
        payload,
        Ok(MotorCommandRequestPDUPayload::PositionControlStream { position_um: 12000 })
    );
}

#[test]
fn checksum_is_tested_on_the_whole_buffer() {
    let exact = vec![0x01, 0x41, 0xFF, 0x00, 0x00, 0x09, 0x89, 0x68, 0x00, 0x32, 0xA4, 0xC1];
    assert!(OrcaHighSpeedResponseADU::from_bytes(&exact).is_ok());

    let mut longer = exact.clone();
    longer.push(0xAA);
    assert_eq!(OrcaHighSpeedResponseADU::from_bytes(&longer), Err(FrameError::ChecksumMismatch));

    let closed_again = vec![
        0x01, 0x41, 0xFF, 0x00, 0x00, 0x09, 0x89, 0x68, 0x00, 0x32, 0xA4, 0xC1, 0xAA, 0x80, 0x7F,
    ];
    let adu = OrcaHighSpeedResponseADU::from_bytes(&closed_again).unwrap();
    assert_eq!(adu.slave_address, 1);
    assert_eq!(adu.crc, 0xC1A4);
}

#[test]
fn kinematic_padding_is_not_read() {
    assert_eq!(
        MotorCommandRequestPDUPayload::from_bytes(&[0x20, 0x01, 0x02, 0x03, 0x04]),
        Ok(MotorCommandRequestPDUPayload::KinematicDataStream {})
    );
}

#[test]
fn a_first_byte_that_is_no_sub_code_reads_as_sleep() {
    for byte in 0..=255u8 {
        let payload = MotorCommandRequestPDUPayload::from_bytes(&[byte, 0, 0, 0, 1]).unwrap();
        let expected = match byte {
            0x1C => MotorCommandRequestPDUPayload::ForceControlStream { force_mn: 1 },
            0x1E => MotorCommandRequestPDUPayload::PositionControlStream { position_um: 1 },
            0x20 => MotorCommandRequestPDUPayload::KinematicDataStream {},
            0x22 => MotorCommandRequestPDUPayload::HapticDataStream { haptic_status_register: 1 },
            _ => MotorCommandRequestPDUPayload::SleepDataStream {},
        };
        assert_eq!(payload, expected);
    }
}

#[test]
fn haptic_payload_is_decoded() {
    assert_eq!(
        MotorCommandRequestPDUPayload::from_bytes(&[0x22, 0x12, 0x34, 0x56, 0x78]),
        Ok(MotorCommandRequestPDUPayload::HapticDataStream { haptic_status_register: 0x1234_5678 })
    );
}

#[test]
fn read_and_write_payloads_are_decoded() {
    assert_eq!(
        MotorReadRequestPDUPayload::from_bytes(&[0x01, 0x3D, 0x02]),
        Ok(MotorReadRequestPDUPayload { register_address: 317, register_width: 2 })
    );
    assert_eq!(
        MotorWriteRequestPDUPayload::from_bytes(&[0x00, 0x1E, 0x02, 0x00, 0x01, 0x38, 0x80]),
        Ok(MotorWriteRequestPDUPayload {
            register_address: 30,
            register_width: 2,
            register_data: 80000,
        })
    );
}

#[test]
fn new_fixes_the_checksum_and_changing_a_field_does_not() {
    let mut adu = OrcaHighSpeedRequestADU::new(
        1,
        OrcaHighSpeedRequestPDU::Read(MotorReadRequestPDUPayload {
            register_address: 317,
            register_width: 2,
        }),
    );
    assert_eq!(adu.crc, 0x31C5);
    adu.slave_address = 2;
    assert_eq!(adu.to_vec(), vec![0x02, 0x68, 0x01, 0x3D, 0x02, 0xC5, 0x31]);
    assert_eq!(
        OrcaHighSpeedRequestADU::from_bytes(&adu.to_vec()),
        Err(FrameError::ChecksumMismatch)
    );
}

#[test]
fn reserved_error_bits_come_back_zero() {
    let mut payload = status();
    payload.error.reserve0 = 0x0F;
    payload.error.reserve1 = 1;
    payload.error.reserve2 = 3;
    payload.error.force_clipping = true;
    let adu = OrcaHighSpeedResponseADU::new(1, OrcaHighSpeedResponsePDU::Command(payload));
    let bytes = adu.to_vec();
    assert_eq!(&bytes[15..17], &[0x00, 0x20]);
    let mut expected = status();
    expected.error.force_clipping = true;
    assert_eq!(
        OrcaHighSpeedResponseADU::from_bytes(&bytes).unwrap().pdu,
        OrcaHighSpeedResponsePDU::Command(expected)
    );
}
