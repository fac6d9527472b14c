use moto_hses::commands::{Command, IoCategory, ReadMultipleIo, WriteMultipleIo};

#[test]
fn test_io_category_from_io_number() {
    assert_eq!(IoCategory::from_io_number(1), Some(IoCategory::RobotUserInput));
    assert_eq!(IoCategory::from_io_number(512), Some(IoCategory::RobotUserInput));
    assert_eq!(IoCategory::from_io_number(1001), Some(IoCategory::RobotUserOutput));
    assert_eq!(IoCategory::from_io_number(1512), Some(IoCategory::RobotUserOutput));
    assert_eq!(IoCategory::from_io_number(2701), Some(IoCategory::NetworkInput));
    assert_eq!(IoCategory::from_io_number(2956), Some(IoCategory::NetworkInput));
    assert_eq!(IoCategory::from_io_number(0), None);
    assert_eq!(IoCategory::from_io_number(513), None);
    assert_eq!(IoCategory::from_io_number(1000), None);
    assert_eq!(IoCategory::from_io_number(1513), None);
}

#[test]
fn test_io_category_is_valid_io_number() {
    assert!(IoCategory::is_valid_io_number(1));
    assert!(IoCategory::is_valid_io_number(512));
    assert!(IoCategory::is_valid_io_number(1001));
    assert!(IoCategory::is_valid_io_number(1512));
    assert!(IoCategory::is_valid_io_number(2701));
    assert!(IoCategory::is_valid_io_number(2956));
    assert!(!IoCategory::is_valid_io_number(0));
    assert!(!IoCategory::is_valid_io_number(513));
    assert!(!IoCategory::is_valid_io_number(1000));
    assert!(!IoCategory::is_valid_io_number(1513));
}

#[test]
fn test_io_category_range() {
    assert_eq!(IoCategory::RobotUserInput.range(), (1, 512));
    assert_eq!(IoCategory::RobotUserOutput.range(), (1001, 1512));
    assert_eq!(IoCategory::NetworkInput.range(), (2701, 2956));
    assert_eq!(IoCategory::PseudoInput.range(), (8701, 8720));
}

#[test]
fn test_io_ranges_consistency() {
    // Test that all ranges are properly defined
    for category in [
        IoCategory::RobotUserInput,
        IoCategory::RobotUserOutput,
        IoCategory::ExternalInput,
        IoCategory::NetworkInput,
        IoCategory::ExternalOutput,
        IoCategory::NetworkOutput,
        IoCategory::RobotSystemInput,
        IoCategory::RobotSystemOutput,
        IoCategory::InterfacePanelInput,
        IoCategory::AuxiliaryRelay,
        IoCategory::RobotControlStatusSignal,
        IoCategory::PseudoInput,
    ] {
        let (start, end) = category.range();
        assert!(start <= end, "Range {category:?}: start ({start}) should be <= end ({end})");
        assert!(start > 0, "Range {category:?}: start ({start}) should be > 0");
    }
}

#[test]
#[allow(clippy::unwrap_used)]
fn test_read_multiple_io_construction() {
    // Valid construction
    let cmd = ReadMultipleIo::new(1, 2).unwrap();
    assert_eq!(cmd.start_io_number, 1);
    assert_eq!(cmd.count, 2);

    // Valid construction with maximum count
    let cmd = ReadMultipleIo::new(2701, 474).unwrap();
    assert_eq!(cmd.start_io_number, 2701);
    assert_eq!(cmd.count, 474);
}

#[test]
fn test_read_multiple_io_validation() {
    // Invalid I/O number
    assert!(ReadMultipleIo::new(0, 2).is_err());
    assert!(ReadMultipleIo::new(65535, 2).is_err());

    // Invalid count - zero
    assert!(ReadMultipleIo::new(1, 0).is_err());

    // Invalid count - odd number
    assert!(ReadMultipleIo::new(1, 1).is_err());
    assert!(ReadMultipleIo::new(1, 3).is_err());

    // Invalid count - too large
    assert!(ReadMultipleIo::new(1, 475).is_err());
    assert!(ReadMultipleIo::new(1, 1000).is_err());
}

#[test]
#[allow(clippy::unwrap_used)]
fn test_read_multiple_io_command_trait() {
    let cmd = ReadMultipleIo::new(1, 2).unwrap();
    assert_eq!(ReadMultipleIo::command_id(), 0x300);
    assert_eq!(cmd.instance(), 1);
    assert_eq!(cmd.attribute(), 0);
    assert_eq!(cmd.service(), 0x33);
}

#[test]
#[allow(clippy::unwrap_used)]
fn test_read_multiple_io_serialization() {
    let cmd = ReadMultipleIo::new(1, 2).unwrap();
    let payload = cmd.serialize().unwrap();
    assert_eq!(payload, vec![2, 0, 0, 0]); // 2 in little-endian

    let cmd = ReadMultipleIo::new(2701, 474).unwrap();
    let payload = cmd.serialize().unwrap();
    assert_eq!(payload, vec![218, 1, 0, 0]); // 474 in little-endian
}

#[test]
#[allow(clippy::unwrap_used)]
#[allow(clippy::redundant_clone)]
fn test_write_multiple_io_construction() {
    // Valid construction
    let io_data = vec![0b1010_1010, 0b0101_0101];
    let cmd = WriteMultipleIo::new(2701, io_data.clone()).unwrap();
    assert_eq!(cmd.start_io_number, 2701);
    assert_eq!(cmd.io_data, io_data);

    // Valid construction with maximum count
    let io_data = vec![0u8; 474];
    let cmd = WriteMultipleIo::new(2701, io_data.clone()).unwrap();
    assert_eq!(cmd.start_io_number, 2701);
    assert_eq!(cmd.io_data.len(), 474);
}

#[test]
fn test_write_multiple_io_validation() {
    // Invalid I/O number
    assert!(WriteMultipleIo::new(0, vec![0, 0]).is_err());
    assert!(WriteMultipleIo::new(65535, vec![0, 0]).is_err());

    // Invalid count - empty
    assert!(WriteMultipleIo::new(1, vec![]).is_err());

    // Invalid count - odd number
    assert!(WriteMultipleIo::new(1, vec![0]).is_err());
    assert!(WriteMultipleIo::new(1, vec![0, 0, 0]).is_err());

    // Invalid count - too large
    let large_data = vec![0u8; 475];
    assert!(WriteMultipleIo::new(1, large_data).is_err());
}

#[test]
#[allow(clippy::unwrap_used)]
fn test_write_multiple_io_command_trait() {
    let io_data = vec![0b1010_1010, 0b0101_0101];
    let cmd = WriteMultipleIo::new(1, io_data).unwrap();
    assert_eq!(WriteMultipleIo::command_id(), 0x300);
    assert_eq!(cmd.instance(), 1);
    assert_eq!(cmd.attribute(), 0);
    assert_eq!(cmd.service(), 0x34);
}

#[test]
#[allow(clippy::unwrap_used)]
fn test_write_multiple_io_serialization() {
    let io_data = vec![0b1010_1010, 0b0101_0101];
    let cmd = WriteMultipleIo::new(1, io_data.clone()).unwrap();
    let payload = cmd.serialize().unwrap();

    // Expected: count (4 bytes) + io_data
    let mut expected = vec![2, 0, 0, 0]; // count = 2 in little-endian
    expected.extend_from_slice(&io_data);
    assert_eq!(payload, expected);
}

