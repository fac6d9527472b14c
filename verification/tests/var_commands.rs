use moto_hses::commands::{Command, ReadVar, VariableType, WriteVar};
use moto_hses::encoding::TextEncoding;
use moto_hses::error::ProtocolError;
use std::marker::PhantomData;

#[test]
fn types_test_read_var_command() {
    let read_cmd = ReadVar::<u8> {
        index: 1,
        _phantom: PhantomData,
    };
    assert_eq!(ReadVar::<u8>::command_id(), 0x7a); // ByteVar command ID
    let serialized = read_cmd.serialize().unwrap();
    assert_eq!(serialized, Vec::<u8>::new());
}

#[test]
fn types_test_write_var_command() {
    let write_cmd = WriteVar::<u8> {
        index: 1,
        value: 42,
    };
    assert_eq!(WriteVar::<u8>::command_id(), 0x7a); // ByteVar command ID
    let serialized = write_cmd.serialize().unwrap();
    assert_eq!(serialized, vec![42, 0, 0, 0]); // u8 is serialized as 4 bytes in HSES protocol
}

#[test]
#[allow(clippy::unwrap_used)]
fn commands_test_read_var_command() {
    let read_cmd = ReadVar::<u8> { index: 1, _phantom: PhantomData };
    assert_eq!(ReadVar::<u8>::command_id(), 0x7a); // ByteVar command ID
    let serialized = read_cmd.serialize().unwrap();
    assert_eq!(serialized, Vec::<u8>::new());
}

#[test]
#[allow(clippy::unwrap_used)]
fn commands_test_write_var_command() {
    let write_cmd = WriteVar::<u8> { index: 1, value: 42 };
    assert_eq!(WriteVar::<u8>::command_id(), 0x7a); // ByteVar command ID
    let serialized = write_cmd.serialize().unwrap();
    assert_eq!(serialized, vec![42, 0, 0, 0]); // u8 is serialized as 4 bytes in HSES protocol
}

#[test]
fn var_commands_carry_index_attribute_1_and_get_or_set_single() {
    let read = ReadVar::<i16> { index: 7, _phantom: PhantomData };
    assert_eq!(ReadVar::<i16>::command_id(), 0x7b);
    assert_eq!((read.instance(), read.attribute(), read.service()), (7, 1, 0x0e));
    let write = WriteVar::<i32> { index: 200, value: -2 };
    assert_eq!(WriteVar::<i32>::command_id(), 0x7c);
    assert_eq!((write.instance(), write.attribute(), write.service()), (200, 1, 0x10));
    assert_eq!(write.serialize().unwrap(), vec![0xFE, 0xFF, 0xFF, 0xFF]);
}

#[test]
fn integer_slot_is_little_endian_then_two_zero_bytes() {
    let slot = VariableType::serialize(&0x1234i16, TextEncoding::ShiftJis).unwrap();
    assert_eq!(slot, vec![0x34, 0x12, 0, 0]);
    let back: i16 = VariableType::deserialize(&slot, TextEncoding::Utf8).unwrap();
    assert_eq!(back, 0x1234);
}

#[test]
fn slots_read_back_as_their_values() {
    let b = VariableType::serialize(&200u8, TextEncoding::Utf8).unwrap();
    assert_eq!(<u8 as VariableType>::deserialize(&b, TextEncoding::Utf8).unwrap(), 200);
    let d = VariableType::serialize(&-123456i32, TextEncoding::Utf8).unwrap();
    assert_eq!(<i32 as VariableType>::deserialize(&d, TextEncoding::Utf8).unwrap(), -123456);
}

#[test]
fn short_slots_underflow() {
    assert!(matches!(<u8 as VariableType>::deserialize(&[1, 2, 3], TextEncoding::Utf8), Err(ProtocolError::Underflow)));
    assert!(matches!(<i16 as VariableType>::deserialize(&[1], TextEncoding::Utf8), Err(ProtocolError::Underflow)));
    assert!(matches!(<i32 as VariableType>::deserialize(&[], TextEncoding::Utf8), Err(ProtocolError::Underflow)));
}
