use orca_rs::register_map::OrcaModeOfOperation;
use orca_rs::session::MotorSession;
use orca_rs::session::ReadModeStep;
use orca_rs::session::SessionError;

fn closed(body: &[u8]) -> Vec<u8> {
    let sum = crc::Crc::<u16>::new(&crc::CRC_16_MODBUS).checksum(body);
    let mut frame = body.to_vec();
    frame.extend_from_slice(&sum.to_le_bytes());
    frame
}

fn body(unit: u8, function: u8, len: usize) -> Vec<u8> {
    let mut body = vec![unit, function];
    while body.len() < len {
        body.push((body.len() * 7 + 3) as u8);
    }
    body.truncate(len);
    body
}

#[test]
fn every_header_is_judged_by_its_function_and_byte_count() {
    let session = MotorSession::new();
    let failed = ReadModeStep::Done(Err(SessionError::ProtocolError));
    for function in 0..=255u8 {
        for count in 0..=255u8 {
            let expected = match function {
                0x80..=0xFF => failed,
                1..=4 => {
                    if count > 250 || count < 2 {
                        failed
                    } else {
                        ReadModeStep::Read(count as usize + 2)
                    }
                }
                5 | 6 | 15 | 16 => ReadModeStep::Read(5),
                _ => failed,
            };
            assert_eq!(
                session.read_mode_next(&[0x01, function, count]),
                expected,
                "function {} count {}",
                function,
                count
            );
        }
    }
}

#[test]
fn a_write_reply_is_sound_from_five_to_257_bytes() {
    let session = MotorSession::new_with_slave(3);
    for len in 0..=300usize {
        if len < 2 {
            let reply = vec![3u8; len];
            assert_eq!(session.set_mode_response(&reply), Err(SessionError::ProtocolError));
            continue;
        }
        let reply = closed(&body(3, 6, len - 2));
        assert_eq!(reply.len(), len);
        let expected = if (5..=257).contains(&len) {
            Ok(())
        } else {
            Err(SessionError::ProtocolError)
        };
        assert_eq!(session.set_mode_response(&reply), expected, "length {}", len);
    }
}

#[test]
fn a_write_reply_must_come_from_the_unit_asked_and_answer_a_write() {
    let session = MotorSession::new_with_slave(3);
    for unit in 0..=255u8 {
        for function in 0..=255u8 {
            let reply = closed(&[unit, function, 0x00, 0x03, 0x00, 0x03]);
            let expected =
                if unit == 3 && function == 6 { Ok(()) } else { Err(SessionError::ProtocolError) };
            assert_eq!(session.set_mode_response(&reply), expected);
        }
    }
}

#[test]
fn a_write_reply_must_end_in_its_checksum() {
    let session = MotorSession::new();
    let reply = closed(&[0x01, 0x06, 0x00, 0x03, 0x00, 0x03]);
    assert_eq!(session.set_mode_response(&reply), Ok(()));
    for index in 0..reply.len() {
        for bit in 0..8 {
            let mut flipped = reply.clone();
            flipped[index] ^= 1u8 << bit;
            assert_eq!(session.set_mode_response(&flipped), Err(SessionError::ProtocolError));
        }
    }
}

#[test]
fn a_read_reply_is_judged_by_length_and_byte_count() {
    let session = MotorSession::new();
    for len in 5..=60usize {
        for count in 0..=40u8 {
            let mut inner = body(1, 3, len - 2);
            inner[2] = count;
            if len >= 7 {
                inner[3] = 0;
                inner[4] = 4;
            }
            let reply = closed(&inner);
            let expected = if (count as usize) * 2 < len - 5 || len < 7 {
                Err(SessionError::ProtocolError)
            } else {
                Ok(OrcaModeOfOperation::HapticMode)
            };
            assert_eq!(
                session.read_mode_response(&reply),
                expected,
                "length {} count {}",
                len,
                count
            );
        }
    }
}

#[test]
fn a_read_reply_of_more_than_257_bytes_is_refused() {
    let session = MotorSession::new();
    let mut inner = body(1, 3, 255);
    inner[2] = 0xFF;
    inner[3] = 0;
    inner[4] = 2;
    assert_eq!(session.read_mode_response(&closed(&inner)), Ok(OrcaModeOfOperation::ForceMode));
    let mut inner = body(1, 3, 256);
    inner[2] = 0xFF;
    assert_eq!(session.read_mode_response(&closed(&inner)), Err(SessionError::ProtocolError));
}

#[test]
fn the_mode_is_read_from_the_low_byte_of_the_first_register() {
    let session = MotorSession::new();
    for high in [0x00u8, 0x01, 0x80, 0xFF] {
        for low in 0..=255u8 {
            let reply = closed(&[0x01, 0x03, 0x02, high, low]);
            let expected = match OrcaModeOfOperation::try_from(low) {
                Ok(mode) => Ok(mode),
                Err(_) => Err(SessionError::UnknownMode),
            };
            assert_eq!(session.read_mode_response(&reply), expected);
        }
    }
}

#[test]
fn requests_are_closed_by_the_same_checksum_as_high_speed_frames() {
    for unit in [0u8, 1, 17, 255] {
        let session = MotorSession::new_with_slave(unit);
        let request = session.read_mode_request().unwrap();
        assert_eq!(request, closed(&[unit, 0x03, 0x01, 0x3D, 0x00, 0x01]));
        for (mode, value) in [
            (OrcaModeOfOperation::SleepMode, 1u8),
            (OrcaModeOfOperation::KineticMode, 5),
            (OrcaModeOfOperation::AutoZeroingMode, 55),
        ] {
            let request = session.set_mode_request(mode).unwrap();
            assert_eq!(request, closed(&[unit, 0x06, 0x00, 0x03, 0x00, value]));
        }
    }
}
