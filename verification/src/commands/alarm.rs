//! Alarm commands: read alarm data (0x70), read alarm history (0x71) and
//! alarm reset / error cancel (0x82).

use crate::commands::command_trait::Command;
use crate::error::ProtocolError;
use crate::payload::alarm::Alarm;
use vstd::prelude::*;

verus! {

/// Which part of an alarm a request reads: all of it or one field.
#[derive(Debug, Clone, Copy, PartialEq, Eq, Structural)]
pub enum AlarmAttribute {
    All,
    Code,
    Data,
    Type,
    Time,
    Name,
    SubCodeInfo,
    SubCodeData,
    SubCodeReverse,
}

impl AlarmAttribute {
    /// The attribute number: 0 for all, 1-8 for code, data, type, time,
    /// name, sub-code info, sub-code data and sub-code reverse.
    pub open spec fn code(self) -> u8 {
        match self {
            AlarmAttribute::All => 0,
            AlarmAttribute::Code => 1,
            AlarmAttribute::Data => 2,
            AlarmAttribute::Type => 3,
            AlarmAttribute::Time => 4,
            AlarmAttribute::Name => 5,
            AlarmAttribute::SubCodeInfo => 6,
            AlarmAttribute::SubCodeData => 7,
            AlarmAttribute::SubCodeReverse => 8,
        }
    }

    /// The attribute number.
    pub fn value(self) -> (r: u8)
        ensures
            r == self.code(),
    {
        match self {
            AlarmAttribute::All => 0,
            AlarmAttribute::Code => 1,
            AlarmAttribute::Data => 2,
            AlarmAttribute::Type => 3,
            AlarmAttribute::Time => 4,
            AlarmAttribute::Name => 5,
            AlarmAttribute::SubCodeInfo => 6,
            AlarmAttribute::SubCodeData => 7,
            AlarmAttribute::SubCodeReverse => 8,
        }
    }
}

/// The attribute that a number names; numbers above 8 name the code.
pub open spec fn alarm_attribute_of(value: u8) -> AlarmAttribute {
    if value == 0 {
        AlarmAttribute::All
    } else if value == 2 {
        AlarmAttribute::Data
    } else if value == 3 {
        AlarmAttribute::Type
    } else if value == 4 {
        AlarmAttribute::Time
    } else if value == 5 {
        AlarmAttribute::Name
    } else if value == 6 {
        AlarmAttribute::SubCodeInfo
    } else if value == 7 {
        AlarmAttribute::SubCodeData
    } else if value == 8 {
        AlarmAttribute::SubCodeReverse
    } else {
        AlarmAttribute::Code
    }
}

impl From<u8> for AlarmAttribute {
    fn from(value: u8) -> (r: Self) {
        if value == 0 {
            AlarmAttribute::All
        } else if value == 2 {
            AlarmAttribute::Data
        } else if value == 3 {
            AlarmAttribute::Type
        } else if value == 4 {
            AlarmAttribute::Time
        } else if value == 5 {
            AlarmAttribute::Name
        } else if value == 6 {
            AlarmAttribute::SubCodeInfo
        } else if value == 7 {
            AlarmAttribute::SubCodeData
        } else if value == 8 {
            AlarmAttribute::SubCodeReverse
        } else {
            AlarmAttribute::Code
        }
    }
}

impl vstd::std_specs::convert::FromSpecImpl<u8> for AlarmAttribute {
    open spec fn obeys_from_spec() -> bool {
        true
    }

    open spec fn from_spec(v: u8) -> Self {
        alarm_attribute_of(v)
    }
}

/// Whether an alarm instance lies in one of the five ranges: 1-100,
/// 1001-1100, 2001-2100, 3001-3100 or 4001-4100.
pub open spec fn valid_alarm_instance(instance: u16) -> bool {
    ||| 1 <= instance <= 100
    ||| 1001 <= instance <= 1100
    ||| 2001 <= instance <= 2100
    ||| 3001 <= instance <= 3100
    ||| 4001 <= instance <= 4100
}

fn is_valid_alarm_instance(instance: u16) -> (r: bool)
    ensures
        r == valid_alarm_instance(instance),
{
    (1 <= instance && instance <= 100) || (1001 <= instance && instance <= 1100) || (2001 <= instance
        && instance <= 2100) || (3001 <= instance && instance <= 3100) || (4001 <= instance && instance
        <= 4100)
}

/// The service that reads an alarm: 0x01 (get all) for all attributes, 0x0e
/// (get single) for one.
pub open spec fn alarm_read_service(attribute: AlarmAttribute) -> u8 {
    if attribute == AlarmAttribute::All {
        0x01
    } else {
        0x0e
    }
}

/// Reads the current alarm data (command 0x70).
#[derive(Debug, Clone)]
pub struct ReadAlarmData {
    pub instance: u16,
    pub attribute: AlarmAttribute,
}

impl ReadAlarmData {
    /// A read of `attribute` of alarm `instance`.
    pub fn new(instance: u16, attribute: AlarmAttribute) -> (r: Self)
        ensures
            r.instance == instance,
            r.attribute == attribute,
    {
        Self { instance, attribute }
    }

    /// Whether the instance lies in one of the alarm ranges.
    pub fn is_valid_instance(&self) -> (r: bool)
        ensures
            r == valid_alarm_instance(self.instance),
    {
        is_valid_alarm_instance(self.instance)
    }

    /// Whether the attribute number is 0-8.
    pub fn is_valid_attribute(&self) -> (r: bool)
        ensures
            r == (self.attribute.code() <= 8),
    {
        self.attribute.value() <= 8
    }
}

impl Command for ReadAlarmData {
    type Response = Alarm;

    open spec fn command_id_spec() -> u16 {
        0x70
    }

    open spec fn instance_spec(&self) -> u16 {
        self.instance
    }

    open spec fn attribute_spec(&self) -> u8 {
        self.attribute.code()
    }

    open spec fn service_spec(&self) -> u8 {
        alarm_read_service(self.attribute)
    }

    open spec fn serializable(&self) -> bool {
        true
    }

    open spec fn payload_spec(&self) -> Option<Seq<u8>> {
        Some(Seq::empty())
    }

    fn command_id() -> (r: u16) {
        0x70
    }

    fn serialize(&self) -> (r: Result<Vec<u8>, ProtocolError>) {
        Ok(Vec::new())
    }

    fn instance(&self) -> (r: u16) {
        self.instance
    }

    fn attribute(&self) -> (r: u8) {
        self.attribute.value()
    }

    fn service(&self) -> (r: u8) {
        if self.attribute == AlarmAttribute::All {
            0x01
        } else {
            0x0e
        }
    }
}

/// The alarm history categories, by instance range.
#[derive(Debug, Clone, Copy, PartialEq, Eq, Structural)]
pub enum AlarmCategory {
    MajorFailure,
    MonitorAlarm,
    UserAlarmSystem,
    UserAlarmUser,
    OfflineAlarm,
    Invalid,
}

/// The category of an alarm history instance: 1-100 major failure,
/// 1001-1100 monitor alarm, 2001-2100 user alarm (system), 3001-3100 user
/// alarm (user), 4001-4100 offline alarm; any other instance is invalid.
pub open spec fn alarm_category_of(instance: u16) -> AlarmCategory {
    if 1 <= instance <= 100 {
        AlarmCategory::MajorFailure
    } else if 1001 <= instance <= 1100 {
        AlarmCategory::MonitorAlarm
    } else if 2001 <= instance <= 2100 {
        AlarmCategory::UserAlarmSystem
    } else if 3001 <= instance <= 3100 {
        AlarmCategory::UserAlarmUser
    } else if 4001 <= instance <= 4100 {
        AlarmCategory::OfflineAlarm
    } else {
        AlarmCategory::Invalid
    }
}

/// The first instance of a category (0 for an invalid one).
pub open spec fn category_base(c: AlarmCategory) -> u16 {
    match c {
        AlarmCategory::MajorFailure => 1,
        AlarmCategory::MonitorAlarm => 1001,
        AlarmCategory::UserAlarmSystem => 2001,
        AlarmCategory::UserAlarmUser => 3001,
        AlarmCategory::OfflineAlarm => 4001,
        AlarmCategory::Invalid => 0,
    }
}

/// The position of an alarm within its category, counted from 0; 0 for an
/// invalid instance.
pub open spec fn alarm_index_of(instance: u16) -> int {
    let c = alarm_category_of(instance);
    if c == AlarmCategory::Invalid {
        0
    } else {
        instance - category_base(c)
    }
}

/// Reads an entry of the alarm history (command 0x71).
#[derive(Debug, Clone)]
pub struct ReadAlarmHistory {
    pub instance: u16,
    pub attribute: AlarmAttribute,
}

impl ReadAlarmHistory {
    /// A read of `attribute` of history entry `instance`.
    pub fn new(instance: u16, attribute: AlarmAttribute) -> (r: Self)
        ensures
            r.instance == instance,
            r.attribute == attribute,
    {
        Self { instance, attribute }
    }

    /// Whether the instance lies in one of the alarm ranges.
    pub fn is_valid_instance(&self) -> (r: bool)
        ensures
            r == valid_alarm_instance(self.instance),
    {
        is_valid_alarm_instance(self.instance)
    }

    /// The category of the instance.
    pub fn get_alarm_category(&self) -> (r: AlarmCategory)
        ensures
            r == alarm_category_of(self.instance),
    {
        let i = self.instance;
        if 1 <= i && i <= 100 {
            AlarmCategory::MajorFailure
        } else if 1001 <= i && i <= 1100 {
            AlarmCategory::MonitorAlarm
        } else if 2001 <= i && i <= 2100 {
            AlarmCategory::UserAlarmSystem
        } else if 3001 <= i && i <= 3100 {
            AlarmCategory::UserAlarmUser
        } else if 4001 <= i && i <= 4100 {
            AlarmCategory::OfflineAlarm
        } else {
            AlarmCategory::Invalid
        }
    }

    /// The position of the alarm within its category, counted from 0.
    pub fn get_alarm_index(&self) -> (r: usize)
        ensures
            r == alarm_index_of(self.instance),
    {
        match self.get_alarm_category() {
            AlarmCategory::MajorFailure => (self.instance - 1) as usize,
            AlarmCategory::MonitorAlarm => (self.instance - 1001) as usize,
            AlarmCategory::UserAlarmSystem => (self.instance - 2001) as usize,
            AlarmCategory::UserAlarmUser => (self.instance - 3001) as usize,
            AlarmCategory::OfflineAlarm => (self.instance - 4001) as usize,
            AlarmCategory::Invalid => 0,
        }
    }
}

impl Command for ReadAlarmHistory {
    type Response = Alarm;

    open spec fn command_id_spec() -> u16 {
        0x71
    }

    open spec fn instance_spec(&self) -> u16 {
        self.instance
    }

    open spec fn attribute_spec(&self) -> u8 {
        self.attribute.code()
    }

    open spec fn service_spec(&self) -> u8 {
        alarm_read_service(self.attribute)
    }

    open spec fn serializable(&self) -> bool {
        true
    }

    open spec fn payload_spec(&self) -> Option<Seq<u8>> {
        Some(Seq::empty())
    }

    fn command_id() -> (r: u16) {
        0x71
    }

    fn serialize(&self) -> (r: Result<Vec<u8>, ProtocolError>) {
        Ok(Vec::new())
    }

    fn instance(&self) -> (r: u16) {
        self.instance
    }

    fn attribute(&self) -> (r: u8) {
        self.attribute.value()
    }

    fn service(&self) -> (r: u8) {
        if self.attribute == AlarmAttribute::All {
            0x01
        } else {
            0x0e
        }
    }
}

/// What a reset request does: reset the alarm or cancel the error.
#[derive(Debug, Clone, Copy, PartialEq, Eq, Structural)]
pub enum AlarmResetType {
    Reset,
    Cancel,
}

impl AlarmResetType {
    /// The instance number: 1 for reset, 2 for cancel.
    pub open spec fn code(self) -> u16 {
        match self {
            AlarmResetType::Reset => 1,
            AlarmResetType::Cancel => 2,
        }
    }

    /// The instance number: 1 for reset, 2 for cancel.
    pub fn value(self) -> (r: u16)
        ensures
            r == self.code(),
    {
        match self {
            AlarmResetType::Reset => 1,
            AlarmResetType::Cancel => 2,
        }
    }
}

/// The reset type that a number names: 2 is cancel, any other is reset.
pub open spec fn alarm_reset_type_of(value: u16) -> AlarmResetType {
    if value == 2 {
        AlarmResetType::Cancel
    } else {
        AlarmResetType::Reset
    }
}

impl From<u16> for AlarmResetType {
    fn from(value: u16) -> (r: Self) {
        if value == 2 {
            AlarmResetType::Cancel
        } else {
            AlarmResetType::Reset
        }
    }
}

impl vstd::std_specs::convert::FromSpecImpl<u16> for AlarmResetType {
    open spec fn obeys_from_spec() -> bool {
        true
    }

    open spec fn from_spec(v: u16) -> Self {
        alarm_reset_type_of(v)
    }
}

/// Alarm reset or error cancel (command 0x82).
#[derive(Debug, Clone)]
pub struct AlarmReset {
    pub reset_type: AlarmResetType,
}

impl AlarmReset {
    /// A request of the given type.
    pub fn new(reset_type: AlarmResetType) -> (r: Self)
        ensures
            r.reset_type == reset_type,
    {
        Self { reset_type }
    }

    /// An alarm reset.
    pub fn reset() -> (r: Self)
        ensures
            r.reset_type == AlarmResetType::Reset,
    {
        Self { reset_type: AlarmResetType::Reset }
    }

    /// An error cancel.
    pub fn cancel() -> (r: Self)
        ensures
            r.reset_type == AlarmResetType::Cancel,
    {
        Self { reset_type: AlarmResetType::Cancel }
    }
}

impl Command for AlarmReset {
    type Response = ();

    open spec fn command_id_spec() -> u16 {
        0x82
    }

    open spec fn instance_spec(&self) -> u16 {
        self.reset_type.code()
    }

    open spec fn attribute_spec(&self) -> u8 {
        1
    }

    open spec fn service_spec(&self) -> u8 {
        0x10
    }

    open spec fn serializable(&self) -> bool {
        true
    }

    /// A 32-bit 1.
    open spec fn payload_spec(&self) -> Option<Seq<u8>> {
        Some(seq![1u8, 0u8, 0u8, 0u8])
    }

    fn command_id() -> (r: u16) {
        0x82
    }

    fn serialize(&self) -> (r: Result<Vec<u8>, ProtocolError>) {
        let v: Vec<u8> = vec![1, 0, 0, 0];
        assert(v@ =~= seq![1u8, 0u8, 0u8, 0u8]);
        Ok(v)
    }

    fn instance(&self) -> (r: u16) {
        self.reset_type.value()
    }

    fn attribute(&self) -> (r: u8) {
        1
    }

    fn service(&self) -> (r: u8) {
        0x10
    }
}

} // verus!
