//! Cycle mode switching (command 0x84).

use crate::commands::command_trait::Command;
use crate::error::ProtocolError;
use vstd::prelude::*;

verus! {

/// Switches the cycle mode of the controller (command 0x84).
#[derive(Debug, Clone)]
pub struct CycleModeSwitchingCommand {
    pub mode: CycleMode,
}

impl CycleModeSwitchingCommand {
    /// A switch to `mode`.
    pub fn new(mode: CycleMode) -> (r: Self)
        ensures
            r.mode == mode,
    {
        Self { mode }
    }
}

/// The cycle modes: step, one cycle, continuous.
#[derive(Debug, Clone, Copy, PartialEq, Eq, Structural)]
pub enum CycleMode {
    Step,
    OneCycle,
    Continuous,
}

impl CycleMode {
    /// The mode number: 1 step, 2 one cycle, 3 continuous.
    pub open spec fn code(self) -> u8 {
        match self {
            CycleMode::Step => 1,
            CycleMode::OneCycle => 2,
            CycleMode::Continuous => 3,
        }
    }

    /// The mode number: 1 step, 2 one cycle, 3 continuous.
    pub fn value(self) -> (r: u8)
        ensures
            r == self.code(),
    {
        match self {
            CycleMode::Step => 1,
            CycleMode::OneCycle => 2,
            CycleMode::Continuous => 3,
        }
    }
}

impl Command for CycleModeSwitchingCommand {
    type Response = ();

    open spec fn command_id_spec() -> u16 {
        0x84
    }

    open spec fn instance_spec(&self) -> u16 {
        2
    }

    open spec fn attribute_spec(&self) -> u8 {
        1
    }

    open spec fn service_spec(&self) -> u8 {
        0x10
    }

    open spec fn serializable(&self) -> bool {
        true
    }

    /// The mode number as a 32-bit integer.
    open spec fn payload_spec(&self) -> Option<Seq<u8>> {
        Some(seq![self.mode.code(), 0u8, 0u8, 0u8])
    }

    fn command_id() -> (r: u16) {
        0x84
    }

    fn serialize(&self) -> (r: Result<Vec<u8>, ProtocolError>) {
        let v: Vec<u8> = vec![self.mode.value(), 0, 0, 0];
        assert(v@ =~= seq![self.mode.code(), 0u8, 0u8, 0u8]);
        Ok(v)
    }

    fn instance(&self) -> (r: u16) {
        2
    }

    fn attribute(&self) -> (r: u8) {
        1
    }

    fn service(&self) -> (r: u8) {
        0x10
    }
}

} // verus!
