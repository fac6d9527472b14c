use moto_hses::commands::{Command, ReadExecutingJobInfo, TaskType};
use moto_hses::encoding::TextEncoding;
use moto_hses::error::ProtocolError;
use moto_hses::payload::job::{test_job_info, ExecutingJobInfo, JobInfoAttribute};

#[test]
fn test_executing_job_info_new() {
    let job_info = ExecutingJobInfo::new("TEST.JOB".to_string(), 1000, 1, 100);

    assert_eq!(job_info.job_name, "TEST.JOB");
    assert_eq!(job_info.line_number, 1000);
    assert_eq!(job_info.step_number, 1);
    assert_eq!(job_info.speed_override_value, 100);
}

#[test]
fn test_executing_job_info_default() {
    let job_info = ExecutingJobInfo::default();

    assert_eq!(job_info.job_name, "NO_JOB");
    assert_eq!(job_info.line_number, 0);
    assert_eq!(job_info.step_number, 0);
    assert_eq!(job_info.speed_override_value, 100);
}

#[test]
#[allow(clippy::unwrap_used)]
fn test_executing_job_info_serialize_invalid_attribute() {
    let job_info = ExecutingJobInfo::new("TEST.JOB".to_string(), 1000, 1, 100);

    let result = job_info.serialize(99, TextEncoding::Utf8);
    assert!(result.is_err());
    assert!(matches!(result.unwrap_err(), ProtocolError::InvalidAttribute));
}

#[test]
#[allow(clippy::unwrap_used)]
fn test_executing_job_info_deserialize() {
    let original_job_info = ExecutingJobInfo::new("TEST.JOB".to_string(), 1000, 1, 100);

    let serialized = original_job_info.serialize_complete(TextEncoding::Utf8).unwrap();
    let deserialized = ExecutingJobInfo::deserialize(&serialized, TextEncoding::Utf8).unwrap();

    assert_eq!(deserialized.job_name, original_job_info.job_name);
    assert_eq!(deserialized.line_number, original_job_info.line_number);
    assert_eq!(deserialized.step_number, original_job_info.step_number);
    assert_eq!(deserialized.speed_override_value, original_job_info.speed_override_value);
}

#[test]
#[allow(clippy::unwrap_used)]
fn test_executing_job_info_deserialize_insufficient_data() {
    let short_data = vec![0u8; 10]; // Less than 44 bytes
    let result = ExecutingJobInfo::deserialize(&short_data, TextEncoding::Utf8);
    assert!(result.is_err());
    assert!(matches!(result.unwrap_err(), ProtocolError::Deserialization(_)));
}

#[test]
fn test_read_executing_job_info_new() {
    let command = ReadExecutingJobInfo::new(1, 0);
    assert_eq!(command.instance, 1);
    assert_eq!(command.attribute, 0);
}

#[test]
#[allow(clippy::unwrap_used)]
fn test_read_executing_job_info_command_trait() {
    let command = ReadExecutingJobInfo::new(1, 1);

    assert_eq!(ReadExecutingJobInfo::command_id(), 0x73);
    assert_eq!(command.instance(), 1);
    assert_eq!(command.attribute(), 1);

    let serialized = command.serialize().unwrap();
    assert_eq!(serialized.len(), 0); // Empty payload for 0x73
}

#[test]
#[allow(clippy::unwrap_used)]
fn test_executing_job_info_variable_type_trait() {
    assert_eq!(ExecutingJobInfo::command_id(), 0x73);

    let job_info = ExecutingJobInfo::new("TEST.JOB".to_string(), 1000, 1, 100);

    let serialized = job_info.serialize_complete(TextEncoding::Utf8).unwrap();
    assert_eq!(serialized.len(), 44);

    let deserialized = ExecutingJobInfo::deserialize(&serialized, TextEncoding::Utf8).unwrap();
    assert_eq!(deserialized.job_name, "TEST.JOB");
}

#[test]
fn test_read_executing_job_info_instance_validation() {
    // Valid instances
    assert!(ReadExecutingJobInfo::new(1, 1).is_valid_instance());
    assert!(ReadExecutingJobInfo::new(2, 1).is_valid_instance());
    assert!(ReadExecutingJobInfo::new(3, 1).is_valid_instance());
    assert!(ReadExecutingJobInfo::new(4, 1).is_valid_instance());
    assert!(ReadExecutingJobInfo::new(5, 1).is_valid_instance());
    assert!(ReadExecutingJobInfo::new(6, 1).is_valid_instance());

    // Invalid instances
    assert!(!ReadExecutingJobInfo::new(0, 1).is_valid_instance());
    assert!(!ReadExecutingJobInfo::new(7, 1).is_valid_instance());
    assert!(!ReadExecutingJobInfo::new(100, 1).is_valid_instance());
}

#[test]
fn test_read_executing_job_info_attribute_validation() {
    // Valid attributes
    assert!(ReadExecutingJobInfo::new(1, 0).is_valid_attribute());
    assert!(ReadExecutingJobInfo::new(1, 1).is_valid_attribute());
    assert!(ReadExecutingJobInfo::new(1, 2).is_valid_attribute());
    assert!(ReadExecutingJobInfo::new(1, 3).is_valid_attribute());
    assert!(ReadExecutingJobInfo::new(1, 4).is_valid_attribute());

    // Invalid attributes
    assert!(!ReadExecutingJobInfo::new(1, 5).is_valid_attribute());
    assert!(!ReadExecutingJobInfo::new(1, 99).is_valid_attribute());
}

#[test]
fn test_read_executing_job_info_task_type_detection() {
    // Master task
    assert_eq!(ReadExecutingJobInfo::new(1, 1).get_task_type(), TaskType::MasterTask);

    // Sub tasks
    assert_eq!(ReadExecutingJobInfo::new(2, 1).get_task_type(), TaskType::SubTask1);
    assert_eq!(ReadExecutingJobInfo::new(3, 1).get_task_type(), TaskType::SubTask2);
    assert_eq!(ReadExecutingJobInfo::new(4, 1).get_task_type(), TaskType::SubTask3);
    assert_eq!(ReadExecutingJobInfo::new(5, 1).get_task_type(), TaskType::SubTask4);
    assert_eq!(ReadExecutingJobInfo::new(6, 1).get_task_type(), TaskType::SubTask5);

    // Invalid instances
    assert_eq!(ReadExecutingJobInfo::new(0, 1).get_task_type(), TaskType::Invalid);
    assert_eq!(ReadExecutingJobInfo::new(7, 1).get_task_type(), TaskType::Invalid);
}

#[test]
fn test_job_info_attribute_from_u8() {
    assert_eq!(JobInfoAttribute::from(0), JobInfoAttribute::All);
    assert_eq!(JobInfoAttribute::from(1), JobInfoAttribute::JobName);
    assert_eq!(JobInfoAttribute::from(2), JobInfoAttribute::LineNumber);
    assert_eq!(JobInfoAttribute::from(3), JobInfoAttribute::StepNumber);
    assert_eq!(JobInfoAttribute::from(4), JobInfoAttribute::SpeedOverrideValue);
    assert_eq!(JobInfoAttribute::from(99), JobInfoAttribute::All); // Default
}

#[test]
fn test_test_job_info() {
    let default_job = test_job_info::default_job();
    assert_eq!(default_job.job_name, "TEST.JOB");
    assert_eq!(default_job.line_number, 1000);
    assert_eq!(default_job.step_number, 1);
    assert_eq!(default_job.speed_override_value, 100);

    let running_job = test_job_info::running_job();
    assert_eq!(running_job.job_name, "PRODUCTION.JOB");
    assert_eq!(running_job.line_number, 2500);
    assert_eq!(running_job.step_number, 15);
    assert_eq!(running_job.speed_override_value, 80);

    let paused_job = test_job_info::paused_job();
    assert_eq!(paused_job.job_name, "MAINTENANCE.JOB");
    assert_eq!(paused_job.line_number, 500);
    assert_eq!(paused_job.step_number, 3);
    assert_eq!(paused_job.speed_override_value, 50);
}

#[test]
#[allow(clippy::unwrap_used)]
fn test_executing_job_info_serialize_long_job_name() {
    let long_job_name = "This is a very long job name that exceeds 32 bytes limit"; // Longer than 32 bytes

    let job_info = ExecutingJobInfo::new(long_job_name.to_string(), 1000, 1, 100);

    let data = job_info.serialize_complete(TextEncoding::Utf8).unwrap();

    // Job name should be truncated to 32 bytes
    let name_str = String::from_utf8_lossy(&data[0..32]);
    assert!(name_str.len() <= 32);
    assert!(name_str.starts_with("This is a very long job"));
}

#[test]
#[allow(clippy::unwrap_used)]
fn test_executing_job_info_deserialize_attribute_insufficient_data() {
    // Test insufficient data for job name
    let short_data = vec![0u8; 10];
    let result = ExecutingJobInfo::deserialize_attribute(&short_data, 1, TextEncoding::Utf8);
    assert!(result.is_err());
    assert!(matches!(result.unwrap_err(), ProtocolError::Deserialization(_)));

    // Test insufficient data for line number
    let short_data = vec![0u8; 2];
    let result = ExecutingJobInfo::deserialize_attribute(&short_data, 2, TextEncoding::Utf8);
    assert!(result.is_err());
    assert!(matches!(result.unwrap_err(), ProtocolError::Deserialization(_)));
}
