use moto_hses::commands::{
    Command, HoldServoControl, ReadMultipleRegisters, WriteMultipleRegisters,
};

#[test]
fn test_read_multiple_registers_new() {
    // Valid cases
    assert!(ReadMultipleRegisters::new(0, 1).is_ok());
    assert!(ReadMultipleRegisters::new(500, 100).is_ok());
    assert!(ReadMultipleRegisters::new(999, 1).is_ok());
    assert!(ReadMultipleRegisters::new(0, 237).is_ok());

    // Invalid register number
    assert!(ReadMultipleRegisters::new(1000, 1).is_err());

    // Invalid count
    assert!(ReadMultipleRegisters::new(0, 0).is_err());
    assert!(ReadMultipleRegisters::new(0, 238).is_err());

    // Range overflow
    assert!(ReadMultipleRegisters::new(999, 2).is_err());
    assert!(ReadMultipleRegisters::new(500, 500).is_err());
}

#[test]
fn test_read_multiple_registers_command_trait() {
    let cmd = ReadMultipleRegisters::new(100, 5).expect("Valid command should not fail");

    assert_eq!(ReadMultipleRegisters::command_id(), 0x301);
    assert_eq!(cmd.instance(), 100);
    assert_eq!(cmd.attribute(), 0);
    assert_eq!(cmd.service(), 0x33);
}

#[test]
fn test_read_multiple_registers_serialize() {
    let cmd = ReadMultipleRegisters::new(100, 5).expect("Valid command should not fail");
    let payload = cmd.serialize().expect("Serialization should not fail");

    assert_eq!(payload.len(), 4);
    assert_eq!(u32::from_le_bytes([payload[0], payload[1], payload[2], payload[3]]), 5);
}

#[test]
fn test_write_multiple_registers_new() {
    // Valid cases
    assert!(WriteMultipleRegisters::new(0, vec![100]).is_ok());
    assert!(WriteMultipleRegisters::new(500, vec![100, 200, 300]).is_ok());
    assert!(WriteMultipleRegisters::new(559, vec![999]).is_ok());
    assert!(WriteMultipleRegisters::new(0, vec![0; 237]).is_ok());

    // Invalid register number (readable but not writable)
    assert!(WriteMultipleRegisters::new(560, vec![100]).is_err());
    assert!(WriteMultipleRegisters::new(999, vec![100]).is_err());

    // Invalid count
    assert!(WriteMultipleRegisters::new(0, vec![]).is_err());
    assert!(WriteMultipleRegisters::new(0, vec![0; 238]).is_err());

    // Range overflow
    assert!(WriteMultipleRegisters::new(559, vec![100, 200]).is_err());
    assert!(WriteMultipleRegisters::new(500, vec![0; 61]).is_err()); // 500 + 61 - 1 = 560 > 559
}

#[test]
fn test_write_multiple_registers_command_trait() {
    let cmd = WriteMultipleRegisters::new(100, vec![100, 200, 300])
        .expect("Valid command should not fail");

    assert_eq!(WriteMultipleRegisters::command_id(), 0x301);
    assert_eq!(cmd.instance(), 100);
    assert_eq!(cmd.attribute(), 0);
    assert_eq!(cmd.service(), 0x34);
}

#[test]
fn test_write_multiple_registers_serialize() {
    let cmd = WriteMultipleRegisters::new(100, vec![100, 200, 300])
        .expect("Valid command should not fail");
    let payload = cmd.serialize().expect("Serialization should not fail");

    assert_eq!(payload.len(), 4 + 6); // 4 bytes count + 6 bytes data (3 * 2 bytes)

    // Check count
    assert_eq!(u32::from_le_bytes([payload[0], payload[1], payload[2], payload[3]]), 3);

    // Check data
    assert_eq!(i16::from_le_bytes([payload[4], payload[5]]), 100);
    assert_eq!(i16::from_le_bytes([payload[6], payload[7]]), 200);
    assert_eq!(i16::from_le_bytes([payload[8], payload[9]]), 300);
}

#[test]
fn test_write_multiple_registers_serialize_empty() {
    let cmd = WriteMultipleRegisters::new(0, vec![]);
    assert!(cmd.is_err());
}

#[test]
fn test_write_multiple_registers_serialize_large() {
    let large_values: Vec<i16> =
        (0..237).map(|i| i16::try_from(i).expect("i should fit in i16")).collect();
    let cmd =
        WriteMultipleRegisters::new(0, large_values).expect("Valid command should not fail");
    let payload = cmd.serialize().expect("Serialization should not fail");

    assert_eq!(payload.len(), 4 + 474); // 4 bytes count + 474 bytes data (237 * 2 bytes)
    assert_eq!(u32::from_le_bytes([payload[0], payload[1], payload[2], payload[3]]), 237);
}

#[test]
#[allow(clippy::unwrap_used)]
fn servo_test_hold_servo_control_serialization() {
    let hold_on = HoldServoControl::hold_on();
    assert_eq!(hold_on.instance(), 1);
    assert_eq!(hold_on.attribute(), 1);
    assert_eq!(hold_on.service(), 0x10);
    let serialized = hold_on.serialize().unwrap();
    assert_eq!(serialized, vec![1, 0, 0, 0]);

    let servo_off = HoldServoControl::servo_off();
    assert_eq!(servo_off.instance(), 2);
    let serialized = servo_off.serialize().unwrap();
    assert_eq!(serialized, vec![2, 0, 0, 0]);

    let hlock_on = HoldServoControl::hlock_on();
    assert_eq!(hlock_on.instance(), 3);
    let serialized = hlock_on.serialize().unwrap();
    assert_eq!(serialized, vec![1, 0, 0, 0]);
}

