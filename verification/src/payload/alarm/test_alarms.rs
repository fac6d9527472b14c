//! Predefined alarms for testing.

use crate::payload::alarm::Alarm;
use vstd::prelude::*;

verus! {

/// Whether `a` has these fields, its texts taken by their characters.
pub open spec fn has_alarm_fields(
    a: Alarm,
    code: u32,
    data: u32,
    alarm_type: u32,
    time: Seq<char>,
    name: Seq<char>,
    sub_code_info: Seq<char>,
    sub_code_data: Seq<char>,
    sub_code_reverse: Seq<char>,
) -> bool {
    &&& a.code == code
    &&& a.data == data
    &&& a.alarm_type == alarm_type
    &&& a.time@ == time
    &&& a.name@ == name
    &&& a.sub_code_info@ == sub_code_info
    &&& a.sub_code_data@ == sub_code_data
    &&& a.sub_code_reverse@ == sub_code_reverse
}

/// The servo error test alarm.
pub open spec fn is_servo_error(a: Alarm) -> bool {
    has_alarm_fields(a, 1001, 1, 1, "2024/01/01 12:00"@, "Servo Error"@, "[SV#1]"@, "Servo amplifier error"@, "0"@)
}

/// The emergency stop test alarm.
pub open spec fn is_emergency_stop(a: Alarm) -> bool {
    has_alarm_fields(a, 2001, 0, 0, "2024/01/01 12:01"@, "Emergency Stop"@, Seq::empty(), Seq::empty(), Seq::empty())
}

/// The safety error test alarm.
pub open spec fn is_safety_error(a: Alarm) -> bool {
    has_alarm_fields(a, 3001, 2, 2, "2024/01/01 12:02"@, "Safety Error"@, "[SV#2]"@, "Safety circuit error"@, "1"@)
}

/// The communication error test alarm.
pub open spec fn is_communication_error(a: Alarm) -> bool {
    has_alarm_fields(
        a,
        4001,
        3,
        3,
        "2024/01/01 12:03"@,
        "Communication Error"@,
        "[COM#1]"@,
        "Network communication error"@,
        "2"@,
    )
}

/// The four test alarms in order: servo error, emergency stop, safety
/// error, communication error.
pub open spec fn are_test_alarms(alarms: Seq<Alarm>) -> bool {
    &&& alarms.len() == 4
    &&& is_servo_error(alarms[0])
    &&& is_emergency_stop(alarms[1])
    &&& is_safety_error(alarms[2])
    &&& is_communication_error(alarms[3])
}

/// Servo error (code 1001) with a sub-code.
pub fn servo_error() -> (r: Alarm)
    ensures
        is_servo_error(r),
{
    Alarm::new(1001, 1, 1, "2024/01/01 12:00".to_string(), "Servo Error".to_string()).with_sub_code(
        "[SV#1]".to_string(),
        "Servo amplifier error".to_string(),
        "0".to_string(),
    )
}

/// Emergency stop (code 2001) without a sub-code.
pub fn emergency_stop() -> (r: Alarm)
    ensures
        is_emergency_stop(r),
{
    Alarm::new(2001, 0, 0, "2024/01/01 12:01".to_string(), "Emergency Stop".to_string())
}

/// Safety error (code 3001) with a sub-code.
pub fn safety_error() -> (r: Alarm)
    ensures
        is_safety_error(r),
{
    Alarm::new(3001, 2, 2, "2024/01/01 12:02".to_string(), "Safety Error".to_string()).with_sub_code(
        "[SV#2]".to_string(),
        "Safety circuit error".to_string(),
        "1".to_string(),
    )
}

/// Communication error (code 4001) with a sub-code.
pub fn communication_error() -> (r: Alarm)
    ensures
        is_communication_error(r),
{
    Alarm::new(4001, 3, 3, "2024/01/01 12:03".to_string(), "Communication Error".to_string()).with_sub_code(
        "[COM#1]".to_string(),
        "Network communication error".to_string(),
        "2".to_string(),
    )
}

} // verus!
