use moto_hses::commands::{
    AlarmAttribute, AlarmCategory, AlarmReset, AlarmResetType, Command, ReadAlarmData,
    ReadAlarmHistory,
};
use moto_hses::encoding::TextEncoding;
use moto_hses::error::ProtocolError;
use moto_hses::payload::alarm::{test_alarms, Alarm};

#[test]
#[allow(clippy::unwrap_used)]
fn alarm_test_alarm_new() {
    let alarm =
        Alarm::new(1001, 1, 1, "2024/01/01 12:00".to_string(), "Test Alarm".to_string());

    assert_eq!(alarm.code, 1001);
    assert_eq!(alarm.data, 1);
    assert_eq!(alarm.alarm_type, 1);
    assert_eq!(alarm.time, "2024/01/01 12:00");
    assert_eq!(alarm.name, "Test Alarm");
    assert_eq!(alarm.sub_code_info, "");
    assert_eq!(alarm.sub_code_data, "");
    assert_eq!(alarm.sub_code_reverse, "");
}

#[test]
#[allow(clippy::unwrap_used)]
fn alarm_test_alarm_with_sub_code() {
    let alarm =
        Alarm::new(1001, 1, 1, "2024/01/01 12:00".to_string(), "Test Alarm".to_string())
            .with_sub_code(
                "[SV#1]".to_string(),
                "Sub code data".to_string(),
                "Reverse".to_string(),
            );

    assert_eq!(alarm.sub_code_info, "[SV#1]");
    assert_eq!(alarm.sub_code_data, "Sub code data");
    assert_eq!(alarm.sub_code_reverse, "Reverse");
}

#[test]
#[allow(clippy::unwrap_used)]
fn alarm_test_alarm_default() {
    let alarm = Alarm::default();

    assert_eq!(alarm.code, 0);
    assert_eq!(alarm.data, 0);
    assert_eq!(alarm.alarm_type, 0);
    assert_eq!(alarm.time, "2024/01/01 00:00");
    assert_eq!(alarm.name, "No Alarm");
    assert_eq!(alarm.sub_code_info, "");
    assert_eq!(alarm.sub_code_data, "");
    assert_eq!(alarm.sub_code_reverse, "");
}

#[test]
#[allow(clippy::unwrap_used)]
fn alarm_test_alarm_serialize_complete() {
    let alarm =
        Alarm::new(1001, 1, 1, "2024/01/01 12:00".to_string(), "Test Alarm".to_string());

    let data = alarm.serialize_complete(TextEncoding::Utf8).unwrap();
    assert_eq!(data.len(), 268); // 4+4+4+16+32+16+96+96

    // Check alarm code (first 4 bytes)
    assert_eq!(u32::from_le_bytes([data[0], data[1], data[2], data[3]]), 1001);

    // Check alarm data (next 4 bytes)
    assert_eq!(u32::from_le_bytes([data[4], data[5], data[6], data[7]]), 1);

    // Check alarm type (next 4 bytes)
    assert_eq!(u32::from_le_bytes([data[8], data[9], data[10], data[11]]), 1);
}

#[test]
#[allow(clippy::unwrap_used)]
fn alarm_test_alarm_serialize_attribute() {
    let alarm =
        Alarm::new(1001, 1, 1, "2024/01/01 12:00".to_string(), "Test Alarm".to_string());

    // Test alarm code serialization
    let data = alarm.serialize(1, TextEncoding::Utf8).unwrap();
    assert_eq!(data.len(), 4);
    assert_eq!(u32::from_le_bytes([data[0], data[1], data[2], data[3]]), 1001);

    // Test alarm data serialization
    let data = alarm.serialize(2, TextEncoding::Utf8).unwrap();
    assert_eq!(data.len(), 4);
    assert_eq!(u32::from_le_bytes([data[0], data[1], data[2], data[3]]), 1);

    // Test alarm type serialization
    let data = alarm.serialize(3, TextEncoding::Utf8).unwrap();
    assert_eq!(data.len(), 4);
    assert_eq!(u32::from_le_bytes([data[0], data[1], data[2], data[3]]), 1);

    // Test alarm time serialization
    let data = alarm.serialize(4, TextEncoding::Utf8).unwrap();
    assert_eq!(data.len(), 16);
    let time_str =
        String::from_utf8_lossy(&data[..data.iter().position(|&b| b == 0).unwrap_or(16)]);
    assert_eq!(time_str, "2024/01/01 12:00");

    // Test alarm name serialization
    let data = alarm.serialize(5, TextEncoding::Utf8).unwrap();
    assert_eq!(data.len(), 32);
    let name_str =
        String::from_utf8_lossy(&data[..data.iter().position(|&b| b == 0).unwrap_or(32)]);
    assert_eq!(name_str, "Test Alarm");
}

#[test]
#[allow(clippy::unwrap_used)]
fn alarm_test_alarm_serialize_invalid_attribute() {
    let alarm =
        Alarm::new(1001, 1, 1, "2024/01/01 12:00".to_string(), "Test Alarm".to_string());

    let result = alarm.serialize(99, TextEncoding::Utf8);
    assert!(result.is_err());
    assert!(matches!(result.unwrap_err(), ProtocolError::InvalidAttribute));
}

#[test]
#[allow(clippy::unwrap_used)]
fn alarm_test_alarm_deserialize() {
    let original_alarm =
        Alarm::new(1001, 1, 1, "2024/01/01 12:00".to_string(), "Test Alarm".to_string());

    let serialized = original_alarm.serialize_complete(TextEncoding::Utf8).unwrap();
    let deserialized = Alarm::deserialize(&serialized, TextEncoding::Utf8).unwrap();

    assert_eq!(deserialized.code, original_alarm.code);
    assert_eq!(deserialized.data, original_alarm.data);
    assert_eq!(deserialized.alarm_type, original_alarm.alarm_type);
    assert_eq!(deserialized.time, original_alarm.time);
    assert_eq!(deserialized.name, original_alarm.name);
}

#[test]
#[allow(clippy::unwrap_used)]
fn alarm_test_alarm_deserialize_insufficient_data() {
    let short_data = vec![0u8; 10]; // Less than 60 bytes
    let result = Alarm::deserialize(&short_data, TextEncoding::Utf8);
    assert!(result.is_err());
    assert!(matches!(result.unwrap_err(), ProtocolError::Deserialization(_)));
}

#[test]
#[allow(clippy::unwrap_used)]
fn alarm_test_alarm_variable_type_trait() {
    let alarm =
        Alarm::new(1001, 1, 1, "2024/01/01 12:00".to_string(), "Test Alarm".to_string());

    let serialized = alarm.serialize_complete(TextEncoding::Utf8).unwrap();
    assert_eq!(serialized.len(), 268);

    let deserialized = Alarm::deserialize(&serialized, TextEncoding::Utf8).unwrap();
    assert_eq!(deserialized.code, 1001);
}

#[test]
fn alarm_test_test_alarms() {
    let servo_alarm = test_alarms::servo_error();
    assert_eq!(servo_alarm.code, 1001);
    assert_eq!(servo_alarm.name, "Servo Error");
    assert_eq!(servo_alarm.sub_code_info, "[SV#1]");

    let emergency_alarm = test_alarms::emergency_stop();
    assert_eq!(emergency_alarm.code, 2001);
    assert_eq!(emergency_alarm.name, "Emergency Stop");
    assert_eq!(emergency_alarm.sub_code_info, "");

    let safety_alarm = test_alarms::safety_error();
    assert_eq!(safety_alarm.code, 3001);
    assert_eq!(safety_alarm.name, "Safety Error");
    assert_eq!(safety_alarm.sub_code_info, "[SV#2]");
}

#[test]
#[allow(clippy::unwrap_used)]
fn alarm_test_alarm_serialize_long_strings() {
    let long_time = "2024/01/01 12:00:00.123456789"; // Longer than 16 bytes
    let long_name = "This is a very long alarm name that exceeds 32 bytes limit"; // Longer than 32 bytes

    let alarm = Alarm::new(1001, 1, 1, long_time.to_string(), long_name.to_string());

    let data = alarm.serialize_complete(TextEncoding::Utf8).unwrap();

    // Time should be truncated to 16 bytes
    let time_str = String::from_utf8_lossy(&data[12..28]);
    assert!(time_str.len() <= 16);
    assert!(time_str.starts_with("2024/01/01 12:00"));

    // Name should be truncated to 32 bytes
    let name_str = String::from_utf8_lossy(&data[28..60]);
    assert!(name_str.len() <= 32);
    assert!(name_str.starts_with("This is a very long alarm"));
}

#[test]
fn alarm_test_alarm_encoding_utf8() {
    let alarm =
        Alarm::new(1001, 1, 1, "2024/01/01 12:00".to_string(), "Test Alarm".to_string());

    // Test UTF-8 encoding (default)
    assert_eq!(alarm.name, "Test Alarm");
    assert_eq!(alarm.time, "2024/01/01 12:00");
}

#[test]
#[allow(clippy::unwrap_used)]
fn alarm_test_alarm_encoding_shift_jis() {
    // Create test alarm with Japanese text
    let japanese_name = "テストアラーム";
    let japanese_time = "2024/01/01 12:00";
    let alarm = Alarm::new(1001, 1, 1, japanese_time.to_string(), japanese_name.to_string());

    // Serialize with Shift_JIS encoding
    let data = alarm.serialize_complete(TextEncoding::ShiftJis).unwrap();

    // Deserialize with Shift_JIS encoding
    let deserialized_alarm = Alarm::deserialize(&data, TextEncoding::ShiftJis).unwrap();

    // Test Shift_JIS round-trip
    assert_eq!(deserialized_alarm.name, japanese_name);
    assert_eq!(deserialized_alarm.time, japanese_time);

    // Deserialize with UTF-8 encoding (should produce garbled text)
    let alarm_utf8 = Alarm::deserialize(&data, TextEncoding::Utf8).unwrap();

    // The UTF-8 decoding should produce garbled text for Japanese name
    assert_ne!(alarm_utf8.name, japanese_name);

    // Time is ASCII, so it should be the same in both encodings
    assert_eq!(alarm_utf8.time, japanese_time);
}

#[test]
fn alarm_test_alarm_sub_code_encoding() {
    let alarm =
        Alarm::new(1001, 1, 1, "2024/01/01 12:00".to_string(), "Test Alarm".to_string())
            .with_sub_code(
                "[SV#1]".to_string(),
                "Sub code data".to_string(),
                "Reverse".to_string(),
            );

    // Test UTF-8 encoding (default)
    assert_eq!(alarm.sub_code_info, "[SV#1]");
    assert_eq!(alarm.sub_code_data, "Sub code data");
    assert_eq!(alarm.sub_code_reverse, "Reverse");
}

#[test]
#[allow(clippy::unwrap_used)]
fn alarm_test_alarm_deserialize_with_encoding() {
    // Create test alarm
    let time_str = "2024/01/01 12:00";
    let name_str = "Test Alarm";
    let alarm = Alarm::new(1001, 1, 1, time_str.to_string(), name_str.to_string());

    // Serialize with UTF-8 encoding
    let data = alarm.serialize_complete(TextEncoding::Utf8).unwrap();

    // Deserialize with UTF-8 encoding
    let deserialized_alarm = Alarm::deserialize(&data, TextEncoding::Utf8).unwrap();

    assert_eq!(deserialized_alarm.code, 1001);
    assert_eq!(deserialized_alarm.data, 1);
    assert_eq!(deserialized_alarm.alarm_type, 1);
    assert_eq!(deserialized_alarm.time, time_str);
    assert_eq!(deserialized_alarm.name, name_str);
}

#[test]
fn alarm_test_alarm_attribute_from_u8() {
    assert_eq!(AlarmAttribute::from(0), AlarmAttribute::All);
    assert_eq!(AlarmAttribute::from(1), AlarmAttribute::Code);
    assert_eq!(AlarmAttribute::from(2), AlarmAttribute::Data);
    assert_eq!(AlarmAttribute::from(3), AlarmAttribute::Type);
    assert_eq!(AlarmAttribute::from(4), AlarmAttribute::Time);
    assert_eq!(AlarmAttribute::from(5), AlarmAttribute::Name);
    assert_eq!(AlarmAttribute::from(6), AlarmAttribute::SubCodeInfo);
    assert_eq!(AlarmAttribute::from(7), AlarmAttribute::SubCodeData);
    assert_eq!(AlarmAttribute::from(8), AlarmAttribute::SubCodeReverse);
    assert_eq!(AlarmAttribute::from(99), AlarmAttribute::Code); // Default
}

#[test]
fn alarm_test_read_alarm_data_new() {
    let command = ReadAlarmData::new(1, AlarmAttribute::All);
    assert_eq!(command.instance, 1);
    assert_eq!(command.attribute, AlarmAttribute::All);
}

#[test]
#[allow(clippy::unwrap_used)]
fn alarm_test_read_alarm_data_command_trait() {
    let command = ReadAlarmData::new(2, AlarmAttribute::Name);

    assert_eq!(ReadAlarmData::command_id(), 0x70);
    assert_eq!(command.instance(), 2);
    assert_eq!(command.attribute(), 5);

    let serialized = command.serialize().unwrap();
    assert_eq!(serialized.len(), 0); // Empty payload for 0x70
}

#[test]
#[allow(clippy::unwrap_used)]
fn alarm_test_read_alarm_history_command_trait() {
    let cmd = ReadAlarmHistory::new(1, AlarmAttribute::Code);
    assert_eq!(ReadAlarmHistory::command_id(), 0x71);
    assert_eq!(cmd.instance(), 1);
    assert_eq!(cmd.attribute(), 1);
    assert!(cmd.serialize().unwrap().is_empty());
}

#[test]
#[allow(clippy::unwrap_used, clippy::cognitive_complexity)]
fn alarm_test_read_alarm_history_instance_validation() {
    // Valid instances
    assert!(ReadAlarmHistory::new(1, AlarmAttribute::Code).is_valid_instance());
    assert!(ReadAlarmHistory::new(50, AlarmAttribute::Code).is_valid_instance());
    assert!(ReadAlarmHistory::new(100, AlarmAttribute::Code).is_valid_instance());
    assert!(ReadAlarmHistory::new(1001, AlarmAttribute::Code).is_valid_instance());
    assert!(ReadAlarmHistory::new(1050, AlarmAttribute::Code).is_valid_instance());
    assert!(ReadAlarmHistory::new(1100, AlarmAttribute::Code).is_valid_instance());
    assert!(ReadAlarmHistory::new(2001, AlarmAttribute::Code).is_valid_instance());
    assert!(ReadAlarmHistory::new(2050, AlarmAttribute::Code).is_valid_instance());
    assert!(ReadAlarmHistory::new(2100, AlarmAttribute::Code).is_valid_instance());
    assert!(ReadAlarmHistory::new(3001, AlarmAttribute::Code).is_valid_instance());
    assert!(ReadAlarmHistory::new(3050, AlarmAttribute::Code).is_valid_instance());
    assert!(ReadAlarmHistory::new(3100, AlarmAttribute::Code).is_valid_instance());
    assert!(ReadAlarmHistory::new(4001, AlarmAttribute::Code).is_valid_instance());
    assert!(ReadAlarmHistory::new(4050, AlarmAttribute::Code).is_valid_instance());
    assert!(ReadAlarmHistory::new(4100, AlarmAttribute::Code).is_valid_instance());

    // Invalid instances
    assert!(!ReadAlarmHistory::new(0, AlarmAttribute::Code).is_valid_instance());
    assert!(!ReadAlarmHistory::new(101, AlarmAttribute::Code).is_valid_instance());
    assert!(!ReadAlarmHistory::new(500, AlarmAttribute::Code).is_valid_instance());
    assert!(!ReadAlarmHistory::new(1000, AlarmAttribute::Code).is_valid_instance());
    assert!(!ReadAlarmHistory::new(1101, AlarmAttribute::Code).is_valid_instance());
    assert!(!ReadAlarmHistory::new(2000, AlarmAttribute::Code).is_valid_instance());
    assert!(!ReadAlarmHistory::new(2101, AlarmAttribute::Code).is_valid_instance());
    assert!(!ReadAlarmHistory::new(3000, AlarmAttribute::Code).is_valid_instance());
    assert!(!ReadAlarmHistory::new(3101, AlarmAttribute::Code).is_valid_instance());
    assert!(!ReadAlarmHistory::new(4000, AlarmAttribute::Code).is_valid_instance());
    assert!(!ReadAlarmHistory::new(4101, AlarmAttribute::Code).is_valid_instance());
    assert!(!ReadAlarmHistory::new(5000, AlarmAttribute::Code).is_valid_instance());
}

#[test]
fn alarm_test_read_alarm_history_category_detection() {
    // Major failure alarms (1-100)
    assert_eq!(
        ReadAlarmHistory::new(1, AlarmAttribute::Code).get_alarm_category(),
        AlarmCategory::MajorFailure
    );
    assert_eq!(
        ReadAlarmHistory::new(50, AlarmAttribute::Code).get_alarm_category(),
        AlarmCategory::MajorFailure
    );
    assert_eq!(
        ReadAlarmHistory::new(100, AlarmAttribute::Code).get_alarm_category(),
        AlarmCategory::MajorFailure
    );

    // Monitor alarms (1001-1100)
    assert_eq!(
        ReadAlarmHistory::new(1001, AlarmAttribute::Code).get_alarm_category(),
        AlarmCategory::MonitorAlarm
    );
    assert_eq!(
        ReadAlarmHistory::new(1050, AlarmAttribute::Code).get_alarm_category(),
        AlarmCategory::MonitorAlarm
    );
    assert_eq!(
        ReadAlarmHistory::new(1100, AlarmAttribute::Code).get_alarm_category(),
        AlarmCategory::MonitorAlarm
    );

    // User alarm (system) (2001-2100)
    assert_eq!(
        ReadAlarmHistory::new(2001, AlarmAttribute::Code).get_alarm_category(),
        AlarmCategory::UserAlarmSystem
    );
    assert_eq!(
        ReadAlarmHistory::new(2050, AlarmAttribute::Code).get_alarm_category(),
        AlarmCategory::UserAlarmSystem
    );
    assert_eq!(
        ReadAlarmHistory::new(2100, AlarmAttribute::Code).get_alarm_category(),
        AlarmCategory::UserAlarmSystem
    );

    // User alarm (user) (3001-3100)
    assert_eq!(
        ReadAlarmHistory::new(3001, AlarmAttribute::Code).get_alarm_category(),
        AlarmCategory::UserAlarmUser
    );
    assert_eq!(
        ReadAlarmHistory::new(3050, AlarmAttribute::Code).get_alarm_category(),
        AlarmCategory::UserAlarmUser
    );
    assert_eq!(
        ReadAlarmHistory::new(3100, AlarmAttribute::Code).get_alarm_category(),
        AlarmCategory::UserAlarmUser
    );

    // Offline alarm (4001-4100)
    assert_eq!(
        ReadAlarmHistory::new(4001, AlarmAttribute::Code).get_alarm_category(),
        AlarmCategory::OfflineAlarm
    );
    assert_eq!(
        ReadAlarmHistory::new(4050, AlarmAttribute::Code).get_alarm_category(),
        AlarmCategory::OfflineAlarm
    );
    assert_eq!(
        ReadAlarmHistory::new(4100, AlarmAttribute::Code).get_alarm_category(),
        AlarmCategory::OfflineAlarm
    );

    // Invalid instances
    assert_eq!(
        ReadAlarmHistory::new(0, AlarmAttribute::Code).get_alarm_category(),
        AlarmCategory::Invalid
    );
    assert_eq!(
        ReadAlarmHistory::new(5000, AlarmAttribute::Code).get_alarm_category(),
        AlarmCategory::Invalid
    );
}

#[test]
fn alarm_test_read_alarm_history_index_calculation() {
    // Major failure alarms (1-100) -> index 0-99
    assert_eq!(ReadAlarmHistory::new(1, AlarmAttribute::Code).get_alarm_index(), 0);
    assert_eq!(ReadAlarmHistory::new(50, AlarmAttribute::Code).get_alarm_index(), 49);
    assert_eq!(ReadAlarmHistory::new(100, AlarmAttribute::Code).get_alarm_index(), 99);

    // Monitor alarms (1001-1100) -> index 0-99
    assert_eq!(ReadAlarmHistory::new(1001, AlarmAttribute::Code).get_alarm_index(), 0);
    assert_eq!(ReadAlarmHistory::new(1050, AlarmAttribute::Code).get_alarm_index(), 49);
    assert_eq!(ReadAlarmHistory::new(1100, AlarmAttribute::Code).get_alarm_index(), 99);

    // User alarm (system) (2001-2100) -> index 0-99
    assert_eq!(ReadAlarmHistory::new(2001, AlarmAttribute::Code).get_alarm_index(), 0);
    assert_eq!(ReadAlarmHistory::new(2050, AlarmAttribute::Code).get_alarm_index(), 49);
    assert_eq!(ReadAlarmHistory::new(2100, AlarmAttribute::Code).get_alarm_index(), 99);

    // User alarm (user) (3001-3100) -> index 0-99
    assert_eq!(ReadAlarmHistory::new(3001, AlarmAttribute::Code).get_alarm_index(), 0);
    assert_eq!(ReadAlarmHistory::new(3050, AlarmAttribute::Code).get_alarm_index(), 49);
    assert_eq!(ReadAlarmHistory::new(3100, AlarmAttribute::Code).get_alarm_index(), 99);

    // Offline alarm (4001-4100) -> index 0-99
    assert_eq!(ReadAlarmHistory::new(4001, AlarmAttribute::Code).get_alarm_index(), 0);
    assert_eq!(ReadAlarmHistory::new(4050, AlarmAttribute::Code).get_alarm_index(), 49);
    assert_eq!(ReadAlarmHistory::new(4100, AlarmAttribute::Code).get_alarm_index(), 99);

    // Invalid instances
    assert_eq!(ReadAlarmHistory::new(0, AlarmAttribute::Code).get_alarm_index(), 0);
    assert_eq!(ReadAlarmHistory::new(5000, AlarmAttribute::Code).get_alarm_index(), 0);
}

#[test]
fn alarm_test_alarm_reset_type_enum() {
    assert_eq!(AlarmResetType::Reset.value(), 1);
    assert_eq!(AlarmResetType::Cancel.value(), 2);
}

#[test]
fn alarm_test_alarm_reset_type_from_u16() {
    assert_eq!(AlarmResetType::from(1), AlarmResetType::Reset);
    assert_eq!(AlarmResetType::from(2), AlarmResetType::Cancel);
    assert_eq!(AlarmResetType::from(99), AlarmResetType::Reset); // Default
}

#[test]
fn alarm_test_alarm_reset_new() {
    let reset_cmd = AlarmReset::new(AlarmResetType::Reset);
    assert_eq!(reset_cmd.reset_type, AlarmResetType::Reset);

    let cancel_cmd = AlarmReset::new(AlarmResetType::Cancel);
    assert_eq!(cancel_cmd.reset_type, AlarmResetType::Cancel);
}

#[test]
fn alarm_test_alarm_reset_convenience_methods() {
    let reset_cmd = AlarmReset::reset();
    assert_eq!(reset_cmd.reset_type, AlarmResetType::Reset);

    let cancel_cmd = AlarmReset::cancel();
    assert_eq!(cancel_cmd.reset_type, AlarmResetType::Cancel);
}

#[test]
#[allow(clippy::unwrap_used)]
fn alarm_test_alarm_reset_command_trait() {
    let reset_cmd = AlarmReset::reset();
    let cancel_cmd = AlarmReset::cancel();

    // Command ID
    assert_eq!(AlarmReset::command_id(), 0x82);

    // Instance
    assert_eq!(reset_cmd.instance(), 1);
    assert_eq!(cancel_cmd.instance(), 2);

    // Attribute (fixed to 1)
    assert_eq!(reset_cmd.attribute(), 1);
    assert_eq!(cancel_cmd.attribute(), 1);

    // Service (Set_Attribute_Single)
    assert_eq!(reset_cmd.service(), 0x10);
    assert_eq!(cancel_cmd.service(), 0x10);

    // Serialization
    let reset_payload = reset_cmd.serialize().unwrap();
    let cancel_payload = cancel_cmd.serialize().unwrap();

    // Both should have the same payload: [1, 0, 0, 0]
    assert_eq!(reset_payload, vec![1, 0, 0, 0]);
    assert_eq!(cancel_payload, vec![1, 0, 0, 0]);
}

#[test]
#[allow(clippy::unwrap_used)]
fn alarm_test_alarm_reset_serialization() {
    let reset_cmd = AlarmReset::reset();
    let payload = reset_cmd.serialize().unwrap();

    // Payload should be 4 bytes: [1, 0, 0, 0]
    assert_eq!(payload.len(), 4);
    assert_eq!(payload[0], 1); // Data 1
    assert_eq!(payload[1], 0); // Reserved
    assert_eq!(payload[2], 0); // Reserved
    assert_eq!(payload[3], 0); // Reserved
}

#[test]
fn alarm_test_alarm_reset_clone_and_debug() {
    let reset_cmd = AlarmReset::reset();
    let cloned_cmd = reset_cmd.clone();
    assert_eq!(reset_cmd.reset_type, cloned_cmd.reset_type);

    // Test Debug trait
    let debug_str = format!("{reset_cmd:?}");
    assert!(debug_str.contains("AlarmReset"));
    assert!(debug_str.contains("Reset"));
}

