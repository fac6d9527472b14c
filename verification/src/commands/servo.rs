//! Hold, servo and HLOCK on/off (command 0x83).

use crate::commands::command_trait::Command;
use crate::error::ProtocolError;
use crate::wire::{le_i32, push_i32_le};
use vstd::prelude::*;

verus! {

/// Turns hold, servo power or HLOCK on or off (command 0x83).
#[derive(Debug, Clone, Copy, PartialEq, Eq, Structural)]
pub struct HoldServoControl {
    pub control_type: HoldServoType,
    pub value: HoldServoValue,
}

/// What a hold/servo request switches.
#[derive(Debug, Clone, Copy, PartialEq, Eq, Structural)]
pub enum HoldServoType {
    Hold,
    ServoOn,
    HLock,
}

impl HoldServoType {
    /// The instance number: 1 hold, 2 servo on, 3 HLOCK.
    pub open spec fn code(self) -> u16 {
        match self {
            HoldServoType::Hold => 1,
            HoldServoType::ServoOn => 2,
            HoldServoType::HLock => 3,
        }
    }

    /// The instance number: 1 hold, 2 servo on, 3 HLOCK.
    pub fn value(self) -> (r: u16)
        ensures
            r == self.code(),
    {
        match self {
            HoldServoType::Hold => 1,
            HoldServoType::ServoOn => 2,
            HoldServoType::HLock => 3,
        }
    }
}

/// On or off.
#[derive(Debug, Clone, Copy, PartialEq, Eq, Structural)]
pub enum HoldServoValue {
    On,
    Off,
}

impl HoldServoValue {
    /// The value on the wire: 1 on, 2 off.
    pub open spec fn code(self) -> i32 {
        match self {
            HoldServoValue::On => 1,
            HoldServoValue::Off => 2,
        }
    }

    /// The value on the wire: 1 on, 2 off.
    pub fn value(self) -> (r: i32)
        ensures
            r == self.code(),
    {
        match self {
            HoldServoValue::On => 1,
            HoldServoValue::Off => 2,
        }
    }
}

impl HoldServoControl {
    /// A request to switch `control_type` to `value`.
    pub fn new(control_type: HoldServoType, value: HoldServoValue) -> (r: Self)
        ensures
            r.control_type == control_type,
            r.value == value,
    {
        Self { control_type, value }
    }

    /// Hold on.
    pub fn hold_on() -> (r: Self)
        ensures
            r.control_type == HoldServoType::Hold,
            r.value == HoldServoValue::On,
    {
        Self::new(HoldServoType::Hold, HoldServoValue::On)
    }

    /// Hold off.
    pub fn hold_off() -> (r: Self)
        ensures
            r.control_type == HoldServoType::Hold,
            r.value == HoldServoValue::Off,
    {
        Self::new(HoldServoType::Hold, HoldServoValue::Off)
    }

    /// Servo on.
    pub fn servo_on() -> (r: Self)
        ensures
            r.control_type == HoldServoType::ServoOn,
            r.value == HoldServoValue::On,
    {
        Self::new(HoldServoType::ServoOn, HoldServoValue::On)
    }

    /// Servo off.
    pub fn servo_off() -> (r: Self)
        ensures
            r.control_type == HoldServoType::ServoOn,
            r.value == HoldServoValue::Off,
    {
        Self::new(HoldServoType::ServoOn, HoldServoValue::Off)
    }

    /// HLOCK on.
    pub fn hlock_on() -> (r: Self)
        ensures
            r.control_type == HoldServoType::HLock,
            r.value == HoldServoValue::On,
    {
        Self::new(HoldServoType::HLock, HoldServoValue::On)
    }

    /// HLOCK off.
    pub fn hlock_off() -> (r: Self)
        ensures
            r.control_type == HoldServoType::HLock,
            r.value == HoldServoValue::Off,
    {
        Self::new(HoldServoType::HLock, HoldServoValue::Off)
    }
}

impl Command for HoldServoControl {
    type Response = ();

    open spec fn command_id_spec() -> u16 {
        0x83
    }

    open spec fn instance_spec(&self) -> u16 {
        self.control_type.code()
    }

    open spec fn attribute_spec(&self) -> u8 {
        1
    }

    open spec fn service_spec(&self) -> u8 {
        0x10
    }

    open spec fn serializable(&self) -> bool {
        true
    }

    /// The on/off value as a 32-bit integer.
    open spec fn payload_spec(&self) -> Option<Seq<u8>> {
        Some(le_i32(self.value.code()))
    }

    fn command_id() -> (r: u16) {
        0x83
    }

    fn serialize(&self) -> (r: Result<Vec<u8>, ProtocolError>) {
        let mut payload = Vec::new();
        push_i32_le(&mut payload, self.value.value());
        assert(payload@ =~= le_i32(self.value.code()));
        Ok(payload)
    }

    fn instance(&self) -> (r: u16) {
        self.control_type.value()
    }

    fn attribute(&self) -> (r: u8) {
        1
    }

    fn service(&self) -> (r: u8) {
        0x10
    }
}

} // verus!
