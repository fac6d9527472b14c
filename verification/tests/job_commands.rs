use moto_hses::commands::{Command, JobSelectCommand, JobSelectType, JobStartCommand};
use moto_hses::encoding::TextEncoding;
use moto_hses::error::ProtocolError;

#[test]
fn test_job_start_command_trait() {
    let command = JobStartCommand::new();

    assert_eq!(JobStartCommand::command_id(), 0x86);
    assert_eq!(command.instance(), 1);
    assert_eq!(command.attribute(), 1);
    assert_eq!(command.service(), 0x10);
}

#[test]
fn test_job_start_command_serialize() {
    let command = JobStartCommand::new();
    let data = command.serialize().unwrap();
    assert_eq!(data, vec![1, 0, 0, 0]);
}

#[test]
fn test_job_select_command_trait() {
    let command = JobSelectCommand::new(
        JobSelectType::InExecution,
        "TEST.JOB".to_string(),
        0,
        TextEncoding::Utf8,
    );

    assert_eq!(JobSelectCommand::command_id(), 0x87);
    assert_eq!(command.instance(), 1);
    assert_eq!(command.attribute(), 0);
    assert_eq!(command.service(), 0x02);
}

#[test]
fn test_job_select_command_serialize() {
    let command = JobSelectCommand::new(
        JobSelectType::InExecution,
        "TEST.JOB".to_string(),
        123,
        TextEncoding::Utf8,
    );
    let data = command.serialize().unwrap();

    // Should be 36 bytes total
    assert_eq!(data.len(), 36);

    // First 8 bytes should be "TEST.JOB" (ASCII)
    assert_eq!(&data[0..8], b"TEST.JOB");

    // Remaining job name bytes should be zero-padded
    assert_eq!(&data[8..32], &[0u8; 24]);

    // Last 4 bytes should be line number (123) in little-endian
    assert_eq!(&data[32..36], &[123, 0, 0, 0]);
}

#[test]
fn test_job_select_command_serialize_japanese() {
    let command = JobSelectCommand::new(
        JobSelectType::MasterTask0,
        "テスト.JOB".to_string(),
        456,
        TextEncoding::Utf8,
    );
    let data = command.serialize().unwrap();

    // Should be 36 bytes total
    assert_eq!(data.len(), 36);

    // Last 4 bytes should be line number (456) in little-endian
    assert_eq!(&data[32..36], &[200, 1, 0, 0]);
}

#[test]
fn test_job_select_command_serialize_long_job_name() {
    let long_name = "A".repeat(33); // 33 characters, exceeds 32-byte limit
    let command =
        JobSelectCommand::new(JobSelectType::InExecution, long_name, 0, TextEncoding::Utf8);
    let result = command.serialize();

    assert!(result.is_err());
    assert!(matches!(result.unwrap_err(), ProtocolError::InvalidMessage(_)));
}

#[test]
fn test_job_select_command_serialize_shift_jis() {
    let command = JobSelectCommand::new(
        JobSelectType::InExecution,
        "テスト.JOB".to_string(),
        123,
        TextEncoding::ShiftJis,
    );
    let data = command.serialize().unwrap();

    // Should be 36 bytes total
    assert_eq!(data.len(), 36);

    // Last 4 bytes should be line number (123) in little-endian
    assert_eq!(&data[32..36], &[123, 0, 0, 0]);

    // First 32 bytes should contain Shift-JIS encoded job name
    // "テスト.JOB" in Shift-JIS is 12 bytes, so remaining 20 bytes should be zero-padded
    assert_eq!(&data[12..32], &[0u8; 20]);
}

