use bytes::BytesMut;
use moto_hses::commands::{
    Command, Division, HoldServoControl, ReadStatus, ReadStatusData1, ReadStatusData2, Service,
};
use moto_hses::encoding::TextEncoding;
use moto_hses::message::HsesCommonHeader;
use moto_hses::payload::HsesPayload;
use moto_hses::types::{CoordinateSystem, CoordinateSystemType, VarType, Variable};

#[test]
fn test_variable_creation() {
    let var = Variable::new(VarType::Byte, 1, 42u8);
    assert_eq!(var.var_type, VarType::Byte);
    assert_eq!(var.index, 1);
    assert_eq!(var.value, 42);
}

#[test]
fn test_variable_with_default() {
    let var = Variable::<u8>::with_default(VarType::Byte, 1);
    assert_eq!(var.var_type, VarType::Byte);
    assert_eq!(var.index, 1);
    assert_eq!(var.value, 0u8);
}

#[test]
fn types_test_division_enum() {
    assert_eq!(Division::Robot.value(), 1);
    assert_eq!(Division::File.value(), 2);
}

#[test]
fn types_test_service_enum() {
    assert_eq!(Service::GetSingle.value(), 0x0e);
    assert_eq!(Service::SetSingle.value(), 0x10);
    assert_eq!(Service::GetAll.value(), 0x01);
    assert_eq!(Service::SetAll.value(), 0x02);
}

#[test]
fn test_coordinate_system_enum() {
    assert_eq!(CoordinateSystem::Base, CoordinateSystem::Base);
    assert_eq!(CoordinateSystem::Robot, CoordinateSystem::Robot);
    assert_eq!(CoordinateSystem::Tool, CoordinateSystem::Tool);
    assert_eq!(CoordinateSystem::User(1), CoordinateSystem::User(1));
}

#[test]
fn test_coordinate_system_type_enum() {
    assert_eq!(CoordinateSystemType::RobotPulse.value(), 0);
    assert_eq!(CoordinateSystemType::BasePulse.value(), 1);
    assert_eq!(CoordinateSystemType::StationPulse.value(), 3);
    assert_eq!(CoordinateSystemType::RobotCartesian.value(), 4);
}

#[test]
fn types_test_read_status_command() {
    let read_status = ReadStatus;
    assert_eq!(ReadStatus::command_id(), 0x72);
    let serialized = read_status.serialize().unwrap();
    assert_eq!(serialized, Vec::<u8>::new());
}

#[test]
fn types_test_variable_type_serialization() {
    let value: u8 = 42;
    let serialized = value.serialize(TextEncoding::Utf8).unwrap();
    let deserialized = u8::deserialize(&serialized, TextEncoding::Utf8).unwrap();
    assert_eq!(value, deserialized);
}

#[test]
fn types_test_variable_type_serialization_i32() {
    let value: i32 = 12345;
    let serialized = value.serialize(TextEncoding::Utf8).unwrap();
    let deserialized = i32::deserialize(&serialized, TextEncoding::Utf8).unwrap();
    assert_eq!(value, deserialized);
}

#[test]
fn test_hses_header_creation() {
    let header = HsesCommonHeader::new(1, 0, 1, 0);
    assert_eq!(header.magic, *b"YERC");
    assert_eq!(header.header_size, 0x20);
    assert_eq!(header.division, 1);
    assert_eq!(header.ack, 0);
    assert_eq!(header.request_id, 1);
}

#[test]
fn test_hses_header_encode_decode() {
    let header = HsesCommonHeader::new(1, 0, 1, 0);
    let mut buf = BytesMut::new();
    header.encode(&mut buf);
    
    let mut data = &buf[..];
    let decoded = HsesCommonHeader::decode(&mut data).unwrap();
    
    assert_eq!(header.magic, decoded.magic);
    assert_eq!(header.header_size, decoded.header_size);
    assert_eq!(header.division, decoded.division);
    assert_eq!(header.ack, decoded.ack);
    assert_eq!(header.request_id, decoded.request_id);
}

#[test]
fn tests_test_variable_type_serialization() {
    let value: u8 = 42;
    let serialized = value.serialize(TextEncoding::Utf8).unwrap();
    let deserialized = u8::deserialize(&serialized, TextEncoding::Utf8).unwrap();
    assert_eq!(value, deserialized);
}

#[test]
fn commands_test_division_enum() {
    assert_eq!(Division::Robot.value(), 1);
    assert_eq!(Division::File.value(), 2);
}

#[test]
fn commands_test_service_enum() {
    assert_eq!(Service::GetSingle.value(), 0x0e);
    assert_eq!(Service::SetSingle.value(), 0x10);
    assert_eq!(Service::GetAll.value(), 0x01);
    assert_eq!(Service::SetAll.value(), 0x02);
}

#[test]
#[allow(clippy::unwrap_used)]
fn commands_test_read_status_command() {
    let read_status = ReadStatus;
    assert_eq!(ReadStatus::command_id(), 0x72);
    let serialized = read_status.serialize().unwrap();
    assert_eq!(serialized, Vec::<u8>::new());
}

#[test]
#[allow(clippy::unwrap_used)]
fn commands_test_variable_type_serialization() {
    let value: u8 = 42;
    let serialized = value.serialize(TextEncoding::Utf8).unwrap();
    let deserialized =
        u8::deserialize(&serialized, TextEncoding::Utf8).unwrap();
    assert_eq!(value, deserialized);
}

#[test]
#[allow(clippy::unwrap_used)]
fn commands_test_variable_type_serialization_i32() {
    let value: i32 = 12345;
    let serialized = value.serialize(TextEncoding::Utf8).unwrap();
    let deserialized =
        i32::deserialize(&serialized, TextEncoding::Utf8).unwrap();
    assert_eq!(value, deserialized);
}

#[test]
#[allow(clippy::unwrap_used)]
fn test_read_status_data1_command() {
    let read_status_data1 = ReadStatusData1;
    assert_eq!(ReadStatusData1::command_id(), 0x72);
    assert_eq!(read_status_data1.instance(), 1);
    assert_eq!(read_status_data1.attribute(), 1);
    let serialized = read_status_data1.serialize().unwrap();
    assert_eq!(serialized, Vec::<u8>::new());
}

#[test]
#[allow(clippy::unwrap_used)]
fn test_read_status_data2_command() {
    let read_status_data2 = ReadStatusData2;
    assert_eq!(ReadStatusData2::command_id(), 0x72);
    assert_eq!(read_status_data2.instance(), 1);
    assert_eq!(read_status_data2.attribute(), 2);
    let serialized = read_status_data2.serialize().unwrap();
    assert_eq!(serialized, Vec::<u8>::new());
}

#[test]
#[allow(clippy::unwrap_used)]
fn commands_test_hold_servo_control_serialization() {
    let hold_on = HoldServoControl::hold_on();
    assert_eq!(hold_on.instance(), 1);
    assert_eq!(hold_on.attribute(), 1);
    assert_eq!(hold_on.service(), 0x10);
    let serialized = hold_on.serialize().unwrap();
    assert_eq!(serialized, vec![1, 0, 0, 0]);

    let servo_off = HoldServoControl::servo_off();
    assert_eq!(servo_off.instance(), 2);
    let serialized = servo_off.serialize().unwrap();
    assert_eq!(serialized, vec![2, 0, 0, 0]);

    let hlock_on = HoldServoControl::hlock_on();
    assert_eq!(hlock_on.instance(), 3);
    let serialized = hlock_on.serialize().unwrap();
    assert_eq!(serialized, vec![1, 0, 0, 0]);
}
