use herkulex_bus::error::{classify, Error, TransportFault};
use herkulex_bus::protocol::{
    decode, encode, interpret, is_readable, Ack, Operation, RamData, Reply, Rotation, MAX_ID,
    MAX_TARGET, STATUS_NO_ERROR, TEMPERATURE_REGISTER, TEMPERATURE_REPLY_LEN,
};

fn ack_frame(pid: u8, command: u8, data: &[u8], status: u8, detail: u8) -> Vec<u8> {
    let size = (9 + data.len()) as u8;
    let mut checksum = size ^ pid ^ command;
    for byte in data {
        checksum ^= *byte;
    }
    checksum &= 0xFE;
    let mut frame = vec![0xFF, 0xFF, size, pid, command, checksum, !checksum & 0xFE];
    frame.extend_from_slice(data);
    frame.push(status);
    frame.push(detail);
    frame
}

#[test]
fn reboot_frame_bytes() {
    assert_eq!(
        encode(0x00, Operation::Reboot),
        Ok(vec![0xFF, 0xFF, 0x07, 0x00, 0x09, 0x0E, 0xF0])
    );
    assert_eq!(
        encode(0xFD, Operation::Reboot),
        Ok(vec![0xFF, 0xFF, 0x07, 0xFD, 0x09, 0xF2, 0x0C])
    );
}

#[test]
fn torque_frame_bytes() {
    assert_eq!(
        encode(0x00, Operation::EnableTorque),
        Ok(vec![0xFF, 0xFF, 0x0A, 0x00, 0x03, 0x5C, 0xA2, 0x34, 0x01, 0x60])
    );
    assert_eq!(
        encode(0x02, Operation::DisableTorque),
        Ok(vec![0xFF, 0xFF, 0x0A, 0x02, 0x03, 0x3E, 0xC0, 0x34, 0x01, 0x00])
    );
}

#[test]
fn position_frame_bytes() {
    assert_eq!(
        encode(0x00, Operation::SetPosition(512)),
        Ok(vec![0xFF, 0xFF, 0x0C, 0x00, 0x06, 0x3C, 0xC2, 0x3C, 0x00, 0x02, 0x08, 0x00])
    );
}

#[test]
fn speed_frame_bytes() {
    assert_eq!(
        encode(0x00, Operation::SetSpeed(512, Rotation::Clockwise)),
        Ok(vec![0xFF, 0xFF, 0x0C, 0x00, 0x06, 0x7E, 0x80, 0x3C, 0x00, 0x42, 0x0A, 0x00])
    );
    assert_eq!(
        encode(0x00, Operation::SetSpeed(512, Rotation::CounterClockwise)),
        Ok(vec![0xFF, 0xFF, 0x0C, 0x00, 0x06, 0x3E, 0xC0, 0x3C, 0x00, 0x02, 0x0A, 0x00])
    );
}

#[test]
fn temperature_request_frame_bytes() {
    assert_eq!(
        encode(0x00, Operation::GetTemperature),
        Ok(vec![0xFF, 0xFF, 0x09, 0x00, 0x04, 0x38, 0xC6, 0x37, 0x02])
    );
}

#[test]
fn store_id_frame_bytes() {
    assert_eq!(
        encode(0x00, Operation::SetIdEep(5)),
        Ok(vec![0xFF, 0xFF, 0x0A, 0x00, 0x01, 0x08, 0xF6, 0x06, 0x01, 0x05])
    );
}

#[test]
fn arguments_out_of_range_are_refused() {
    assert_eq!(encode(1, Operation::SetPosition(1024)), Err(Error::InvalidParameter));
    assert_eq!(encode(1, Operation::SetPosition(u16::MAX)), Err(Error::InvalidParameter));
    assert_eq!(
        encode(1, Operation::SetSpeed(1024, Rotation::Clockwise)),
        Err(Error::InvalidParameter)
    );
    assert_eq!(encode(1, Operation::SetIdEep(254)), Err(Error::InvalidParameter));
    assert_eq!(encode(1, Operation::SetIdEep(255)), Err(Error::InvalidParameter));
}

#[test]
fn arguments_at_the_edge_are_taken() {
    assert_eq!(MAX_TARGET, 1023);
    assert_eq!(MAX_ID, 253);
    assert!(encode(1, Operation::SetPosition(0)).is_ok());
    assert!(encode(1, Operation::SetPosition(1023)).is_ok());
    assert!(encode(1, Operation::SetSpeed(0, Rotation::CounterClockwise)).is_ok());
    assert!(encode(1, Operation::SetSpeed(1023, Rotation::Clockwise)).is_ok());
    assert!(encode(1, Operation::SetIdEep(0)).is_ok());
    assert!(encode(1, Operation::SetIdEep(253)).is_ok());
    assert!(Operation::SetPosition(1023).is_valid());
    assert!(!Operation::SetPosition(1024).is_valid());
}

#[test]
fn any_id_is_encoded() {
    assert!(encode(254, Operation::Reboot).is_ok());
    assert!(encode(255, Operation::Reboot).is_ok());
}

#[test]
fn frames_carry_the_id_and_differ_by_it() {
    let operations = [
        Operation::Reboot,
        Operation::EnableTorque,
        Operation::DisableTorque,
        Operation::SetPosition(300),
        Operation::SetSpeed(300, Rotation::Clockwise),
        Operation::GetTemperature,
        Operation::SetIdEep(9),
    ];
    for operation in operations {
        let first = encode(0x00, operation).unwrap();
        let second = encode(0x02, operation).unwrap();
        assert!(first.len() >= 7);
        assert_eq!(first[3], 0x00);
        assert_eq!(second[3], 0x02);
        assert_ne!(first, second);
    }
}

#[test]
fn reply_lengths_and_ack_commands() {
    assert_eq!(TEMPERATURE_REPLY_LEN, 13);
    assert_eq!(Operation::GetTemperature.expected_reply_len(), 13);
    assert_eq!(Operation::Reboot.expected_reply_len(), 0);
    assert_eq!(Operation::SetPosition(1).expected_reply_len(), 0);
    assert_eq!(Operation::SetIdEep(1).expected_ack_command(), 0x41);
    assert_eq!(Operation::EnableTorque.expected_ack_command(), 0x43);
    assert_eq!(Operation::DisableTorque.expected_ack_command(), 0x43);
    assert_eq!(Operation::GetTemperature.expected_ack_command(), 0x44);
    assert_eq!(Operation::SetPosition(1).expected_ack_command(), 0x46);
    assert_eq!(Operation::SetSpeed(1, Rotation::Clockwise).expected_ack_command(), 0x46);
    assert_eq!(Operation::Reboot.expected_ack_command(), 0x49);
}

#[test]
fn position_round_trip() {
    let id = 0x07;
    let position = 512;
    assert!(encode(id, Operation::SetPosition(position)).is_ok());
    let ack = ack_frame(id, 0x46, &[], 0x00, 0x00);
    assert_eq!(ack.len(), 9);
    assert_eq!(decode(id, Operation::SetPosition(position), &ack), Ok(Reply::Acknowledged));
}

#[test]
fn truncated_ack_is_a_protocol_error() {
    let mut ack = ack_frame(0x07, 0x46, &[], 0x00, 0x00);
    ack.pop();
    assert_eq!(decode(0x07, Operation::SetPosition(512), &ack), Err(Error::ProtocolError));
    assert_eq!(decode(0x07, Operation::SetPosition(512), &[]), Err(Error::ProtocolError));
}

#[test]
fn corrupted_checksum_is_a_protocol_error() {
    let mut ack = ack_frame(0x07, 0x46, &[], 0x00, 0x00);
    ack[5] ^= 0x10;
    assert_eq!(decode(0x07, Operation::SetPosition(512), &ack), Err(Error::ProtocolError));
    let mut ack = ack_frame(0x07, 0x46, &[], 0x00, 0x00);
    ack[6] ^= 0x02;
    assert_eq!(decode(0x07, Operation::SetPosition(512), &ack), Err(Error::ProtocolError));
}

#[test]
fn ack_from_another_servo_is_a_protocol_error() {
    let ack = ack_frame(0x08, 0x46, &[], 0x00, 0x00);
    assert_eq!(decode(0x07, Operation::SetPosition(512), &ack), Err(Error::ProtocolError));
}

#[test]
fn ack_of_another_command_is_a_protocol_error() {
    let ack = ack_frame(0x07, 0x49, &[], 0x00, 0x00);
    assert_eq!(decode(0x07, Operation::SetPosition(512), &ack), Err(Error::ProtocolError));
    assert_eq!(decode(0x07, Operation::Reboot, &ack), Ok(Reply::Acknowledged));
}

#[test]
fn fault_status_is_a_protocol_error() {
    for status in [0x01u8, 0x02, 0x04, 0x08, 0x10, 0x20, 0x40] {
        let ack = ack_frame(0x07, 0x46, &[], status, 0x00);
        assert_eq!(decode(0x07, Operation::SetPosition(512), &ack), Err(Error::ProtocolError));
    }
}

#[test]
fn status_detail_alone_is_no_fault() {
    let ack = ack_frame(0x07, 0x46, &[], 0x00, 0x40);
    assert_eq!(decode(0x07, Operation::SetPosition(512), &ack), Ok(Reply::Acknowledged));
}

#[test]
fn temperature_is_decoded() {
    let ack = ack_frame(0x03, 0x44, &[TEMPERATURE_REGISTER, 2, 41, 0], 0x00, 0x00);
    assert_eq!(ack.len(), TEMPERATURE_REPLY_LEN);
    assert_eq!(decode(0x03, Operation::GetTemperature, &ack), Ok(Reply::Temperature(41)));
}

#[test]
fn temperature_is_the_first_data_byte() {
    let ack = ack_frame(0x03, 0x44, &[TEMPERATURE_REGISTER, 2, 200, 1], 0x00, 0x00);
    assert_eq!(decode(0x03, Operation::GetTemperature, &ack), Ok(Reply::Temperature(200)));
}

#[test]
fn other_register_is_no_temperature() {
    let ack = ack_frame(0x03, 0x44, &[54, 2, 41, 0], 0x00, 0x00);
    assert_eq!(decode(0x03, Operation::GetTemperature, &ack), Err(Error::ProtocolError));
}

#[test]
fn unreadable_bytes_are_a_protocol_error() {
    let long = [0u8; 14];
    assert!(!is_readable(&long));
    assert_eq!(decode(0, Operation::GetTemperature, &long), Err(Error::ProtocolError));
    let greedy = ack_frame(0x03, 0x44, &[TEMPERATURE_REGISTER, 3, 41], 0x00, 0x00);
    assert_eq!(greedy.len(), 12);
    assert!(!is_readable(&greedy));
    assert_eq!(decode(0x03, Operation::GetTemperature, &greedy), Err(Error::ProtocolError));
    assert!(is_readable(&[]));
    assert!(is_readable(&[9u8; 11]));
    assert!(is_readable(&[2u8; 13]));
    assert!(is_readable(&[3u8; 12]));
    let mut read = [3u8; 12];
    read[4] = 0x44;
    assert!(!is_readable(&read));
    read[4] = 0x42;
    assert!(!is_readable(&read));
    read[8] = 2;
    assert!(is_readable(&read));
}

#[test]
fn plain_ack_with_trailing_bytes_is_read() {
    let mut ack = ack_frame(0x07, 0x46, &[], 0x00, 0x40);
    ack.extend_from_slice(&[0xAA, 0xBB, 0xCC]);
    assert_eq!(ack.len(), 12);
    assert!(is_readable(&ack));
    assert_eq!(decode(0x07, Operation::SetPosition(512), &ack), Ok(Reply::Acknowledged));
}

#[test]
fn one_byte_read_is_accepted() {
    let ack = ack_frame(0x03, 0x44, &[TEMPERATURE_REGISTER, 1, 77], 0x00, 0x00);
    assert_eq!(ack.len(), 12);
    assert_eq!(decode(0x03, Operation::GetTemperature, &ack), Ok(Reply::Temperature(77)));
}

#[test]
fn interpret_cases() {
    let data = RamData { register: TEMPERATURE_REGISTER, len: 2, first: 30, second: 0 };
    let good = Ack { pid: 4, command: 0x44, status: STATUS_NO_ERROR, data: Some(data) };
    assert_eq!(interpret(4, Operation::GetTemperature, Some(good)), Ok(Reply::Temperature(30)));
    assert_eq!(interpret(4, Operation::GetTemperature, None), Err(Error::ProtocolError));
    assert_eq!(interpret(5, Operation::GetTemperature, Some(good)), Err(Error::ProtocolError));
    assert_eq!(interpret(4, Operation::Reboot, Some(good)), Err(Error::ProtocolError));
    let faulty = Ack { status: 2, ..good };
    assert_eq!(interpret(4, Operation::GetTemperature, Some(faulty)), Err(Error::ProtocolError));
    let bare = Ack { data: None, ..good };
    assert_eq!(interpret(4, Operation::GetTemperature, Some(bare)), Err(Error::ProtocolError));
    let empty = Ack { data: Some(RamData { len: 0, ..data }), ..good };
    assert_eq!(interpret(4, Operation::GetTemperature, Some(empty)), Err(Error::ProtocolError));
    let plain = Ack { pid: 4, command: 0x43, status: STATUS_NO_ERROR, data: None };
    assert_eq!(interpret(4, Operation::EnableTorque, Some(plain)), Ok(Reply::Acknowledged));
    assert_eq!(interpret(4, Operation::DisableTorque, Some(plain)), Ok(Reply::Acknowledged));
}

#[test]
fn faults_are_classified() {
    assert_eq!(classify(TransportFault::TimedOut), Error::Timeout);
    assert_eq!(
        classify(TransportFault::Framing),
        Error::TransportError(TransportFault::Framing)
    );
    assert_eq!(
        classify(TransportFault::Overrun),
        Error::TransportError(TransportFault::Overrun)
    );
    assert_eq!(classify(TransportFault::Parity), Error::TransportError(TransportFault::Parity));
    assert_eq!(
        classify(TransportFault::Disconnected),
        Error::TransportError(TransportFault::Disconnected)
    );
}
