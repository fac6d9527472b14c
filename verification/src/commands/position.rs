//! Current position reading (command 0x75).

use crate::commands::command_trait::Command;
use crate::error::ProtocolError;
use crate::payload::position::Position;
use vstd::prelude::*;

verus! {

/// Reads the current position of a control group (command 0x75).
#[derive(Debug, Clone, PartialEq, Eq, Structural)]
pub struct ReadCurrentPosition {
    pub control_group: u8,
}

impl ReadCurrentPosition {
    /// A read of `control_group` (1-2 robots R1-R2, 11-12 base axes B1-B2, ...).
    pub fn new(control_group: u8) -> (r: Self)
        ensures
            r.control_group == control_group,
    {
        Self { control_group }
    }
}

impl Command for ReadCurrentPosition {
    type Response = Position;

    open spec fn command_id_spec() -> u16 {
        0x75
    }

    open spec fn instance_spec(&self) -> u16 {
        self.control_group as u16
    }

    open spec fn attribute_spec(&self) -> u8 {
        0
    }

    open spec fn service_spec(&self) -> u8 {
        0x01
    }

    open spec fn serializable(&self) -> bool {
        true
    }

    open spec fn payload_spec(&self) -> Option<Seq<u8>> {
        Some(Seq::empty())
    }

    fn command_id() -> (r: u16) {
        0x75
    }

    fn serialize(&self) -> (r: Result<Vec<u8>, ProtocolError>) {
        Ok(Vec::new())
    }

    fn instance(&self) -> (r: u16) {
        self.control_group as u16
    }

    fn attribute(&self) -> (r: u8) {
        0
    }

    fn service(&self) -> (r: u8) {
        0x01
    }
}

} // verus!
