use bytes::BytesMut;
use moto_hses::commands::alarm::AlarmCategory;
use moto_hses::commands::{
    MultipleVariableCommandId, MultipleVariableResponse, ReadMultipleIo, ReadMultipleRegisters,
    WriteMultipleRegisters,
};
use moto_hses::constants::{FILE_CONTROL_PORT, ROBOT_CONTROL_PORT};
use moto_hses::encoding::TextEncoding;
use moto_hses::encoding_utils::{decode_string_with_fallback, encode_string};
use moto_hses::error::ProtocolError;
use moto_hses::message::{
    HsesCommonHeader, HsesRequestMessage, HsesRequestSubHeader, HsesResponseMessage,
    HsesResponseSubHeader,
};
use moto_hses::mock::MockConfig;
use moto_hses::payload::position::{
    CartesianPosition, Configuration, ExtendedConfiguration, Position,
};
use moto_hses::payload::status::{Status, StatusData1};
use moto_hses::payload::HsesPayload;

#[test]
fn request_message_decodes_back_to_what_was_encoded() {
    let message = HsesRequestMessage::new(1, 0, 42, 0x301, 12, 0, 0x34, vec![1, 0, 0, 0, 5, 0]);
    let bytes = message.encode();
    assert_eq!(bytes.len(), 38);
    assert_eq!(&bytes[0..4], b"YERC");
    let decoded = HsesRequestMessage::decode(&bytes).unwrap();
    assert_eq!(decoded.header.request_id, 42);
    assert_eq!(decoded.header.payload_size, 6);
    assert_eq!(decoded.sub_header.command, 0x301);
    assert_eq!(decoded.sub_header.instance, 12);
    assert_eq!(decoded.sub_header.attribute, 0);
    assert_eq!(decoded.sub_header.service, 0x34);
    assert_eq!(decoded.payload, vec![1, 0, 0, 0, 5, 0]);
}

#[test]
fn response_message_decodes_back_to_what_was_encoded() {
    let message = HsesResponseMessage::new(1, 1, 9, 0x0e, 0x02, 0x0102, vec![7, 8, 9]);
    assert_eq!(message.sub_header.service, 0x8e);
    let bytes = message.encode();
    assert_eq!(bytes.len(), 35);
    let decoded = HsesResponseMessage::decode(&bytes).unwrap();
    assert_eq!(decoded.header.ack, 1);
    assert_eq!(decoded.header.request_id, 9);
    assert_eq!(decoded.sub_header.service, 0x8e);
    assert_eq!(decoded.sub_header.status, 0x02);
    assert_eq!(decoded.sub_header.added_status, 0x0102);
    assert_eq!(decoded.payload, vec![7, 8, 9]);
}

#[test]
fn sub_headers_decode_back_to_what_was_encoded() {
    let sub = HsesRequestSubHeader::new(0x7b, 3, 1, 0x10);
    let mut buf = BytesMut::new();
    sub.encode(&mut buf);
    assert_eq!(&buf[..], &[0x7b, 0x00, 0x03, 0x00, 0x01, 0x10, 0x00, 0x00]);
    let mut data = &buf[..];
    let decoded = HsesRequestSubHeader::decode(&mut data).unwrap();
    assert_eq!((decoded.command, decoded.instance, decoded.attribute, decoded.service), (0x7b, 3, 1, 0x10));

    let sub = HsesResponseSubHeader::new(0x0e, 0, 0);
    let mut buf = BytesMut::new();
    sub.encode(&mut buf);
    let mut data = &buf[..];
    let decoded = HsesResponseSubHeader::decode(&mut data).unwrap();
    assert_eq!((decoded.service, decoded.status, decoded.added_status), (0x8e, 0, 0));
}

#[test]
fn common_header_layout_for_a_request_and_an_acknowledgement() {
    let mut buf = BytesMut::new();
    HsesCommonHeader::new(1, 0, 3, 4).encode(&mut buf);
    assert_eq!(
        &buf[..],
        &[
            b'Y', b'E', b'R', b'C', 0x20, 0x00, 0x04, 0x00, 0x03, 0x01, 0x00, 0x03, 0x00, 0x00,
            0x00, 0x00, b'9', b'9', b'9', b'9', b'9', b'9', b'9', b'9'
        ]
    );
    let ack = HsesCommonHeader::new(1, 1, 3, 0);
    assert_eq!(ack.block_number, 0x8000_0000);
}

#[test]
fn short_or_foreign_headers_are_refused() {
    let mut short: &[u8] = &[0u8; 10];
    assert!(matches!(HsesCommonHeader::decode(&mut short), Err(ProtocolError::Underflow)));
    let mut foreign: &[u8] = &[0u8; 24];
    assert!(matches!(HsesCommonHeader::decode(&mut foreign), Err(ProtocolError::InvalidHeader)));
    assert!(matches!(HsesRequestMessage::decode(&[0u8; 12]), Err(ProtocolError::Underflow)));
    let mut short_sub: &[u8] = &[1, 2, 3];
    assert!(matches!(HsesRequestSubHeader::decode(&mut short_sub), Err(ProtocolError::Underflow)));
}

#[test]
fn cartesian_position_decodes_back_to_what_was_encoded() {
    let position = Position::Cartesian(CartesianPosition::new(
        100_000,
        -200_000,
        300_000,
        1_800_000,
        0,
        -900_000,
        1,
        2,
        Configuration::from_raw(0x05),
        ExtendedConfiguration::from_raw(0x03),
    ));
    let bytes = position.serialize().unwrap();
    assert_eq!(bytes.len(), 44);
    assert_eq!(&bytes[0..4], &[16, 0, 0, 0]);
    let decoded = Position::deserialize(&bytes, TextEncoding::Utf8).unwrap();
    assert_eq!(decoded, position);
}

#[test]
fn unknown_position_type_is_a_position_error() {
    let mut bytes = vec![0u8; 44];
    bytes[0] = 7;
    assert!(matches!(
        Position::deserialize(&bytes, TextEncoding::Utf8),
        Err(ProtocolError::PositionError(_))
    ));
    assert!(matches!(Position::deserialize(&[0, 0], TextEncoding::Utf8), Err(ProtocolError::Underflow)));
}

#[test]
fn status_words_decode_back_to_what_was_encoded() {
    let data1 = StatusData1 {
        step: false,
        one_cycle: true,
        continuous: false,
        running: true,
        speed_limited: false,
        teach: false,
        play: true,
        remote: true,
    };
    assert_eq!(data1.to_word(), 0x02 | 0x08 | 0x40 | 0x80);
    let status = Status::from_bytes(&[0xCA, 0x00, 0x70, 0x00]).unwrap();
    assert_eq!(status.data1, data1);
    assert!(status.data2.servo_on && status.data2.error && status.data2.alarm);
    let bytes = status.serialize(TextEncoding::Utf8).unwrap();
    assert_eq!(bytes, vec![0xCA, 0x00, 0x70, 0x00]);
    assert!(matches!(Status::from_bytes(&[1, 2, 3]), Err(ProtocolError::Underflow)));
}

#[test]
fn error_messages_name_the_refused_values() {
    match ReadMultipleRegisters::new(1000, 1) {
        Err(ProtocolError::InvalidInstance(m)) => {
            assert_eq!(m, "Invalid register number: 1000 (valid range: 0-999)")
        }
        other => panic!("unexpected {other:?}"),
    }
    match ReadMultipleRegisters::new(0, 0) {
        Err(ProtocolError::InvalidMessage(m)) => assert_eq!(m, "Invalid count: 0 (must be 1-237)"),
        other => panic!("unexpected {other:?}"),
    }
    match ReadMultipleRegisters::new(999, 2) {
        Err(ProtocolError::InvalidMessage(m)) => {
            assert_eq!(m, "Register range exceeds maximum: 999-1000 (max 999)")
        }
        other => panic!("unexpected {other:?}"),
    }
    match WriteMultipleRegisters::new(560, vec![1]) {
        Err(ProtocolError::InvalidInstance(m)) => {
            assert_eq!(m, "Register 560 is not writable (writable range: 0-559)")
        }
        other => panic!("unexpected {other:?}"),
    }
    match ReadMultipleIo::new(0, 2) {
        Err(ProtocolError::InvalidInstance(m)) => {
            assert_eq!(m, "Invalid I/O number: 0 (valid range: 0-999)")
        }
        other => panic!("unexpected {other:?}"),
    }
    match ReadMultipleIo::new(1, 3) {
        Err(ProtocolError::InvalidMessage(m)) => assert_eq!(m, "Invalid count"),
        other => panic!("unexpected {other:?}"),
    }
    match WriteMultipleRegisters::new(550, vec![0; 11]) {
        Err(ProtocolError::InvalidMessage(m)) => {
            assert_eq!(m, "Register range exceeds writable limit: 550-560 (max 559)")
        }
        other => panic!("unexpected {other:?}"),
    }
}

#[test]
fn decoding_errors_name_the_lengths_they_refuse() {
    match <Vec<i16> as HsesPayload>::deserialize(&[1, 2, 3], TextEncoding::Utf8) {
        Err(ProtocolError::Deserialization(m)) => {
            assert_eq!(m, "Invalid data length for i16 array: 3 bytes (must be multiple of 2)")
        }
        other => panic!("unexpected {other:?}"),
    }
    match Position::deserialize(&[7, 0, 0, 0], TextEncoding::Utf8) {
        Err(ProtocolError::PositionError(m)) => assert_eq!(m, "Unknown position type: 7"),
        other => panic!("unexpected {other:?}"),
    }
    match <u8 as MultipleVariableResponse>::deserialize_multiple(&[2, 0, 0, 0, 1, 2], 4, TextEncoding::Utf8) {
        Err(ProtocolError::Deserialization(m)) => assert_eq!(m, "Count mismatch: expected 4, got 2"),
        other => panic!("unexpected {other:?}"),
    }
    match <i16 as MultipleVariableResponse>::deserialize_multiple(&[1, 0, 0, 0, 1], 1, TextEncoding::Utf8) {
        Err(ProtocolError::Deserialization(m)) => {
            assert_eq!(m, "Invalid response length: got 5 bytes, expected 6")
        }
        other => panic!("unexpected {other:?}"),
    }
    match <u8 as MultipleVariableCommandId>::validate_count(3) {
        Err(ProtocolError::InvalidMessage(m)) => assert_eq!(m, "Count must be multiple of 2: 3"),
        other => panic!("unexpected {other:?}"),
    }
}

#[test]
fn text_encodings_round_trip_and_differ_on_japanese() {
    let text = "ロボット";
    let sjis = encode_string(text, TextEncoding::ShiftJis);
    let utf8 = encode_string(text, TextEncoding::Utf8);
    assert_eq!(sjis.len(), 8);
    assert_eq!(utf8.len(), 12);
    assert_ne!(sjis, utf8);
    assert_eq!(decode_string_with_fallback(&sjis, TextEncoding::ShiftJis), text);
    assert_eq!(decode_string_with_fallback(&utf8, TextEncoding::Utf8), text);
    assert_eq!(TextEncoding::default(), TextEncoding::Utf8);
}

#[test]
fn ports_and_mock_addresses() {
    assert_eq!(ROBOT_CONTROL_PORT, 10040);
    assert_eq!(FILE_CONTROL_PORT, 10041);
    let config = MockConfig::new("127.0.0.1".to_string(), 10040, 10041);
    assert_eq!(config.robot_addr_string(), "127.0.0.1:10040");
    assert_eq!(config.file_addr_string(), "127.0.0.1:10041");
    let state = config.initial_state();
    assert_eq!(state.get_register(4), 400);
    assert_eq!(state.get_variable(2), Some(&vec![0x00, 0x00, 0x20, 0x41]));
}

#[test]
fn malformed_text_falls_back_to_lossy_utf8() {
    assert_eq!(decode_string_with_fallback(&[0x41, 0xC3], TextEncoding::Utf8), "A\u{FFFD}");
    assert_eq!(decode_string_with_fallback(&[0x41, 0x83], TextEncoding::ShiftJis), "A\u{FFFD}");
    assert_eq!(decode_string_with_fallback(b"plain", TextEncoding::ShiftJis), "plain");
}

#[test]
fn initial_state_holds_the_test_alarms_and_history() {
    use_test_alarm_history(MockConfig::default().initial_state());
}

fn use_test_alarm_history(state: moto_hses::mock::MockState) {
    let names: Vec<&str> = state.alarms.iter().map(|a| a.name.as_str()).collect();
    assert_eq!(names, vec!["Servo Error", "Emergency Stop", "Safety Error", "Communication Error"]);
    let history = &state.alarm_history;
    assert_eq!(history.get_alarm(AlarmCategory::MajorFailure, 1).unwrap().code, 2001);
    assert_eq!(history.get_alarm(AlarmCategory::MonitorAlarm, 0).unwrap().code, 4001);
    assert_eq!(history.get_alarm(AlarmCategory::MonitorAlarm, 1).unwrap().code, 1001);
    assert!(history.get_alarm(AlarmCategory::OfflineAlarm, 0).is_none());
    assert_eq!(state.get_file("TEST.JBI").map(|c| c.len()), Some(125));
}

#[test]
fn utf8_alarm_and_job_texts_read_back_as_themselves() {
    let alarm = moto_hses::payload::alarm::Alarm::new(
        7, 1, 2, "2024/01/01 12:00".to_string(), "サーボ異常".to_string(),
    );
    let bytes = alarm.serialize_complete(TextEncoding::Utf8).unwrap();
    let back = moto_hses::payload::alarm::Alarm::deserialize(&bytes, TextEncoding::Utf8).unwrap();
    assert_eq!(back.name, "サーボ異常");
    assert_eq!(back.time, "2024/01/01 12:00");
    let job = moto_hses::payload::job::ExecutingJobInfo::new("ジョブ名".to_string(), 3, 4, 50);
    let bytes = job.serialize_complete(TextEncoding::Utf8).unwrap();
    let back = moto_hses::payload::job::ExecutingJobInfo::deserialize(&bytes, TextEncoding::Utf8).unwrap();
    assert_eq!(back.job_name, "ジョブ名");
    assert_eq!((back.line_number, back.step_number, back.speed_override_value), (3, 4, 50));
}

#[test]
fn job_information_overflow_and_duplicate_files_are_detected() {
    use_overflow_checks();
}

fn use_overflow_checks() {
    let mut state = moto_hses::mock::MockState::default();
    let read_speed = HsesRequestMessage::new(1, 0, 1, 0x73, 1, 4, 0x0e, vec![]);
    let read_name = HsesRequestMessage::new(1, 0, 1, 0x73, 1, 1, 0x0e, vec![]);
    assert!(!moto_hses::mock::server::would_overflow(&read_speed, &state));
    state.executing_job = Some(moto_hses::payload::job::ExecutingJobInfo::new("J".to_string(), 0, 0, u32::MAX));
    assert!(moto_hses::mock::server::would_overflow(&read_speed, &state));
    assert!(!moto_hses::mock::server::would_overflow(&read_name, &state));
    assert!(state.is_valid());
    state.files.push(("TEST.JBI".to_string(), vec![1]));
    assert!(!state.is_valid());
}
