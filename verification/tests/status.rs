use moto_hses::encoding::TextEncoding;
use moto_hses::payload::status::{Status, StatusData1, StatusData2, StatusWrapper};
use moto_hses::payload::HsesPayload;

#[test]
fn status_test_status_from_bytes() {
    let data = vec![0x01, 0x00, 0x40, 0x00];
    let status = Status::from_bytes(&data).unwrap();
    assert!(status.data1.step);
    assert!(status.data2.servo_on);
    assert!(!status.data1.running);
    assert!(!status.data2.alarm);
}

#[test]
fn test_status_serialization() {
    let data1 = StatusData1 {
        step: true,
        one_cycle: false,
        continuous: false,
        running: false,
        speed_limited: false,
        teach: false,
        play: false,
        remote: false,
    };
    let data2 = StatusData2 {
        teach_pendant_hold: false,
        external_hold: false,
        command_hold: false,
        alarm: false,
        error: false,
        servo_on: true,
    };
    let status = Status::new(data1, data2);

    let serialized = status.serialize(TextEncoding::Utf8).unwrap();
    let deserialized = Status::deserialize(&serialized, TextEncoding::Utf8).unwrap();
    assert_eq!(status.data1.step, deserialized.data1.step);
    assert_eq!(status.data2.servo_on, deserialized.data2.servo_on);
    assert_eq!(status.data1.running, deserialized.data1.running);
}

#[test]
fn test_status_helper_methods() {
    let data1 = StatusData1 {
        step: false,
        one_cycle: false,
        continuous: false,
        running: true,
        speed_limited: false,
        teach: true,
        play: false,
        remote: false,
    };
    let data2 = StatusData2 {
        teach_pendant_hold: false,
        external_hold: false,
        command_hold: false,
        alarm: false,
        error: false,
        servo_on: true,
    };
    let status = Status::new(data1, data2);

    assert!(status.is_running());
    assert!(status.is_servo_on());
    assert!(!status.has_alarm());
    assert!(status.is_teach_mode());
    assert!(!status.is_play_mode());
    assert!(!status.is_remote_mode());
}

#[test]
fn test_status_variable_type_trait() {
    assert_eq!(Status::command_id(), 0x72);

    let data1 = StatusData1 {
        step: true,
        one_cycle: false,
        continuous: false,
        running: false,
        speed_limited: false,
        teach: false,
        play: false,
        remote: false,
    };
    let data2 = StatusData2 {
        teach_pendant_hold: false,
        external_hold: false,
        command_hold: false,
        alarm: false,
        error: false,
        servo_on: false,
    };
    let status = Status::new(data1, data2);

    let serialized = status.serialize(TextEncoding::Utf8).unwrap();
    let deserialized = Status::deserialize(&serialized, TextEncoding::Utf8).unwrap();
    assert_eq!(status.data1.step, deserialized.data1.step);
}

#[test]
fn test_status_wrapper() {
    let data1 = StatusData1 {
        step: true,
        one_cycle: false,
        continuous: false,
        running: false,
        speed_limited: false,
        teach: false,
        play: false,
        remote: false,
    };
    let data2 = StatusData2 {
        teach_pendant_hold: false,
        external_hold: false,
        command_hold: false,
        alarm: false,
        error: false,
        servo_on: false,
    };
    let status = Status::new(data1, data2);

    let wrapper = StatusWrapper(status.clone());
    assert_eq!(StatusWrapper::command_id(), 0x72);

    let serialized = wrapper.serialize(TextEncoding::Utf8).unwrap();
    let deserialized = StatusWrapper::deserialize(&serialized, TextEncoding::Utf8).unwrap();
    let deserialized_status: Status = deserialized.into();
    assert_eq!(status.data1.step, deserialized_status.data1.step);
}

#[test]
fn test_status_data1() {
    let data = vec![0x01, 0x00]; // step bit set
    let status_data1 = StatusData1::from_bytes(&data).unwrap();
    assert!(status_data1.step);
    assert!(!status_data1.running);
    assert!(!status_data1.teach);

    let serialized = status_data1.serialize(TextEncoding::Utf8).unwrap();
    let deserialized = StatusData1::deserialize(&serialized, TextEncoding::Utf8).unwrap();
    assert_eq!(status_data1.step, deserialized.step);
}

#[test]
fn test_status_data2() {
    let data = vec![0x40, 0x00]; // servo_on bit set
    let status_data2 = StatusData2::from_bytes(&data).unwrap();
    assert!(status_data2.servo_on);
    assert!(!status_data2.alarm);
    assert!(!status_data2.error);

    let serialized = status_data2.serialize(TextEncoding::Utf8).unwrap();
    let deserialized = StatusData2::deserialize(&serialized, TextEncoding::Utf8).unwrap();
    assert_eq!(status_data2.servo_on, deserialized.servo_on);
}
