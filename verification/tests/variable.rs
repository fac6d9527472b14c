use moto_hses::commands::{
    Command, MultipleVariableCommandId, MultipleVariableResponse, ReadMultipleVariables,
    ReadVariable, VariableCommandId, WriteMultipleVariables, WriteVariable,
};
use moto_hses::encoding::TextEncoding;
use std::marker::PhantomData;

#[allow(clippy::expect_used)]
#[test]
fn test_read_variable_construction() {
    let cmd = ReadVariable::<u8> { index: 10, _phantom: PhantomData };
    assert_eq!(cmd.index, 10);
}

#[test]
fn test_write_variable_construction() {
    let cmd = WriteVariable::<u8> { index: 10, value: 42 };
    assert_eq!(cmd.index, 10);
    assert_eq!(cmd.value, 42);
}

#[test]
fn test_read_variable_command_trait() {
    let cmd = ReadVariable::<u8> { index: 5, _phantom: PhantomData };
    assert_eq!(ReadVariable::<u8>::command_id(), 0x7a);
    assert_eq!(cmd.instance(), 5);
    assert_eq!(cmd.attribute(), 0);
    assert_eq!(cmd.service(), 0x0E);
}

#[test]
fn test_write_variable_command_trait() {
    let cmd = WriteVariable::<u8> { index: 5, value: 100 };
    assert_eq!(WriteVariable::<u8>::command_id(), 0x7a);
    assert_eq!(cmd.instance(), 5);
    assert_eq!(cmd.attribute(), 0);
    assert_eq!(cmd.service(), 0x10);
}

#[test]
#[allow(clippy::expect_used)]
fn test_write_variable_serialization() {
    let cmd = WriteVariable::<u8> { index: 5, value: 100 };
    let serialized = cmd.serialize().expect("Serialization should not fail");
    assert_eq!(serialized, vec![100]);
}

#[test]
#[allow(clippy::expect_used)]
fn test_read_multiple_variables_construction() {
    let cmd = ReadMultipleVariables::<u8>::new(0, 2).expect("Valid command should not fail");
    assert_eq!(cmd.start_variable_number, 0);
    assert_eq!(cmd.count, 2);
}

#[test]
fn test_read_multiple_variables_validation() {
    // Valid count
    assert!(ReadMultipleVariables::<u8>::new(0, 2).is_ok());

    // Invalid count - not multiple of 2
    assert!(ReadMultipleVariables::<u8>::new(0, 3).is_err());
}

#[test]
#[allow(clippy::expect_used)]
fn test_read_multiple_variables_command_trait() {
    let cmd = ReadMultipleVariables::<u8>::new(10, 2).expect("Valid command should not fail");
    assert_eq!(ReadMultipleVariables::<u8>::command_id(), 0x302);
    assert_eq!(cmd.instance(), 10);
    assert_eq!(cmd.attribute(), 0);
    assert_eq!(cmd.service(), 0x33);
}

#[test]
#[allow(clippy::expect_used)]
fn test_read_multiple_variables_serialization() {
    let cmd = ReadMultipleVariables::<u8>::new(5, 2).expect("Valid command should not fail");
    let serialized = cmd.serialize().expect("Serialization should not fail");
    assert_eq!(serialized, vec![2, 0, 0, 0]); // 2 in little-endian
}

#[test]
#[allow(clippy::expect_used)]
fn test_write_multiple_variables_construction() {
    let values = vec![1u8, 2u8];
    let cmd = WriteMultipleVariables::<u8>::new(0, values.clone())
        .expect("Valid command should not fail");
    assert_eq!(cmd.start_variable_number, 0);
    assert_eq!(cmd.values, values);
}

#[test]
fn test_write_multiple_variables_validation() {
    // Valid values
    let values = vec![1u8, 2u8];
    assert!(WriteMultipleVariables::<u8>::new(0, values).is_ok());

    // Invalid values - not multiple of 2
    let values = vec![1u8, 2u8, 3u8];
    assert!(WriteMultipleVariables::<u8>::new(0, values).is_err());
}

#[test]
#[allow(clippy::expect_used)]
fn test_write_multiple_variables_command_trait() {
    let values = vec![1u8, 2u8];
    let cmd =
        WriteMultipleVariables::<u8>::new(10, values).expect("Valid command should not fail");
    assert_eq!(WriteMultipleVariables::<u8>::command_id(), 0x302);
    assert_eq!(cmd.instance(), 10);
    assert_eq!(cmd.attribute(), 0);
    assert_eq!(cmd.service(), 0x34);
}

#[test]
#[allow(clippy::expect_used)]
fn test_write_multiple_variables_serialization() {
    let values = vec![1u8, 2u8];
    let cmd =
        WriteMultipleVariables::<u8>::new(5, values).expect("Valid command should not fail");
    let serialized = cmd.serialize().expect("Serialization should not fail");
    assert_eq!(serialized, vec![2, 0, 0, 0, 1, 2]); // count + values
}

#[test]
#[allow(clippy::unwrap_used)]
fn test_multiple_variable_response_deserialize_multiple() {
    // Test u8 deserialization
    let mut data = vec![2, 0, 0, 0]; // count = 2
    data.extend_from_slice(&[1, 2]); // values

    let result =
        u8::deserialize_multiple(&data, 2, TextEncoding::Utf8).unwrap();
    assert_eq!(result, vec![1, 2]);

    // Test i16 deserialization
    let mut data = vec![2, 0, 0, 0]; // count = 2
    data.extend_from_slice(&[1, 0, 2, 0]); // values in little-endian

    let result =
        i16::deserialize_multiple(&data, 2, TextEncoding::Utf8).unwrap();
    assert_eq!(result, vec![1, 2]);

    // Test error cases
    let short_data = vec![1, 0, 0, 0]; // count = 1, but no data
    assert!(
        u8::deserialize_multiple(&short_data, 1, TextEncoding::Utf8).is_err()
    );

    let wrong_count_data = vec![2, 0, 0, 0, 1]; // count = 2, but only 1 value
    assert!(
        u8::deserialize_multiple(&wrong_count_data, 2, TextEncoding::Utf8)
            .is_err()
    );
}

#[test]
fn test_variable_command_ids() {
    assert_eq!(u8::command_id(), 0x7a);
    assert_eq!(i16::command_id(), 0x7b);
    assert_eq!(i32::command_id(), 0x7c);
    assert_eq!(String::command_id(), 0x7e);
}

#[test]
fn test_multiple_variable_command_ids() {
    assert_eq!(u8::multiple_command_id(), 0x302);
    assert_eq!(i16::multiple_command_id(), 0x303);
    assert_eq!(i32::multiple_command_id(), 0x304);
    assert_eq!(String::multiple_command_id(), 0x306);
}

#[test]
fn test_multiple_variable_element_sizes() {
    assert_eq!(u8::element_size(), 1);
    assert_eq!(i16::element_size(), 2);
    assert_eq!(i32::element_size(), 4);
    assert_eq!(String::element_size(), 16);
}

#[test]
fn test_multiple_variable_max_counts() {
    assert_eq!(u8::max_count(), 474);
    assert_eq!(i16::max_count(), 237);
    assert_eq!(i32::max_count(), 118);
    assert_eq!(String::max_count(), 29);
}

#[test]
fn test_multiple_variable_count_validation() {
    // Valid counts
    assert!(u8::validate_count(2).is_ok());
    assert!(i16::validate_count(1).is_ok());
    assert!(i32::validate_count(1).is_ok());
    assert!(String::validate_count(1).is_ok());

    // Invalid counts - too small
    assert!(u8::validate_count(0).is_err());
    assert!(i16::validate_count(0).is_err());
    assert!(i32::validate_count(0).is_err());
    assert!(String::validate_count(0).is_err());

    // Invalid counts - too large
    assert!(u8::validate_count(475).is_err());
    assert!(i16::validate_count(238).is_err());
    assert!(i32::validate_count(119).is_err());
    assert!(String::validate_count(30).is_err());

    // Invalid count for u8 - not multiple of 2
    assert!(u8::validate_count(3).is_err());
}

#[test]
#[allow(clippy::expect_used, clippy::unwrap_used)]
fn test_multiple_variable_response_parse_element() {
    let data = [1u8, 2, 3, 4, 5, 6, 7, 8];

    // Test u8 parsing
    assert_eq!(u8::parse_element(&data, 0, TextEncoding::Utf8).unwrap(), 1);
    assert_eq!(u8::parse_element(&data, 1, TextEncoding::Utf8).unwrap(), 2);

    // Test i16 parsing
    assert_eq!(i16::parse_element(&data, 0, TextEncoding::Utf8).unwrap(), 0x0201); // little-endian
    assert_eq!(i16::parse_element(&data, 2, TextEncoding::Utf8).unwrap(), 0x0403);

    // Test i32 parsing
    assert_eq!(i32::parse_element(&data, 0, TextEncoding::Utf8).unwrap(), 0x0403_0201); // little-endian
    assert_eq!(i32::parse_element(&data, 4, TextEncoding::Utf8).unwrap(), 0x0807_0605);

    // Test String parsing
    let mut array_data = [0u8; 32];
    // Test data: "Hello" + null terminator + padding
    array_data[0..5].copy_from_slice(b"Hello");
    // Test data: "World" + null terminator + padding
    array_data[16..21].copy_from_slice(b"World");

    let result = String::parse_element(&array_data, 0, TextEncoding::Utf8).unwrap();
    assert_eq!(result, "Hello");

    let result = String::parse_element(&array_data, 16, TextEncoding::Utf8).unwrap();
    assert_eq!(result, "World");
}
