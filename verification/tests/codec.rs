use orca_rs::pdu_payload::ManageHighSpeedRequestPDUPayload;
use orca_rs::pdu_payload::ManageHighSpeedRequestSubFunctionCode;
use orca_rs::pdu_payload::ManageHighSpeedResponsePDUPayload;
use orca_rs::pdu_payload::MotorCommandRequestPDUPayload;
use orca_rs::pdu_payload::MotorCommandResponsePDUPayload;
use orca_rs::pdu_payload::OrcaErrors;

#[test]
fn manage_high_speed_stream_frame() {
    let bytes_request = vec![0xFF, 0x00, 0x00, 0x09, 0x89, 0x68, 0x00, 0x32];
    let deserialized_request =
        ManageHighSpeedRequestPDUPayload::from_bytes(&bytes_request).unwrap();
    let expected_request = ManageHighSpeedRequestPDUPayload {
        sub_function_code: ManageHighSpeedRequestSubFunctionCode::Enable,
        baud_rate: 625000,
        delay_us: 50,
    };
    assert_eq!(deserialized_request, expected_request);

    let bytes_response = vec![0xFF, 0x00, 0x00, 0x09, 0x89, 0x68, 0x00, 0x32];
    let deserialized_response =
        ManageHighSpeedResponsePDUPayload::from_bytes(&bytes_response).unwrap();
    let expected_response = ManageHighSpeedResponsePDUPayload {
        state_command: ManageHighSpeedRequestSubFunctionCode::Enable,
        baud_rate: 625000,
        delay_us: 50,
    };
    assert_eq!(deserialized_response, expected_response);
}

#[test]
fn sleep_stream_command_frame() {
    let bytes_request = vec![0x00, 0x00, 0x00, 0x00, 0x00];
    let deserialized_request = MotorCommandRequestPDUPayload::from_bytes(&bytes_request).unwrap();
    let expected_request = MotorCommandRequestPDUPayload::SleepDataStream {};
    assert_eq!(deserialized_request, expected_request);
}

#[test]
fn force_control_stream_command_frame() {
    let bytes_request = vec![0x1C, 0x00, 0x00, 0x03, 0xE8];
    let deserialized_request = MotorCommandRequestPDUPayload::from_bytes(&bytes_request).unwrap();
    let expected_request = MotorCommandRequestPDUPayload::ForceControlStream { force_mn: 1000 };
    assert_eq!(deserialized_request, expected_request);

    let bytes_response = vec![
        0x00, 0x00, 0x2E, 0xE0, 0x00, 0x01, 0x38, 0x80, 0x00, 0x19, 0x18, 0x5E, 0x56, 0x00, 0x00,
    ];
    let deserialized_response =
        MotorCommandResponsePDUPayload::from_bytes(&bytes_response).unwrap();
    let expected_response = MotorCommandResponsePDUPayload {
        position_um: 12000,
        force_mn: 80000,
        power_w: 25,
        temperature_c: 24,
        voltage_mv: 24150,
        error: OrcaErrors::default(),
    };
    assert_eq!(deserialized_response, expected_response);
}
