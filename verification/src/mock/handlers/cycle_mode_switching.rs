//! Handler for cycle mode switching (command 0x84).

use crate::commands::cycle_mode::CycleMode;
use crate::error::ProtocolError;
use crate::message::HsesRequestMessage;
use crate::mock::handlers::CommandHandler;
use crate::mock::state::MockState;
use crate::wire::{read_u32_le, u32_at};
use vstd::prelude::*;

verus! {

/// The cycle mode that a mode number names (1 step, 2 one cycle, 3
/// continuous).
pub open spec fn cycle_mode_of(value: u32) -> Option<CycleMode> {
    if value == 1 {
        Some(CycleMode::Step)
    } else if value == 2 {
        Some(CycleMode::OneCycle)
    } else if value == 3 {
        Some(CycleMode::Continuous)
    } else {
        None
    }
}

/// Switches the cycle mode (command 0x84). The instance must be 2 (else an
/// invalid command), the attribute 1 (else an invalid attribute), the
/// service 0x10 (else an invalid service); a payload under 4 bytes cannot be
/// read, and a mode other than 1-3 is an invalid attribute. The reply is
/// empty.
pub struct CycleModeSwitchingHandler;

/// What `CycleModeSwitchingHandler` does with a request.
pub open spec fn cycle_mode_switching_handled(old: MockState, new: MockState, message: HsesRequestMessage, r: Result<Vec<u8>, ProtocolError>) -> bool {
    let h = message.sub_header;
    let payload = message.payload@;
    &&& r is Err ==> new == old
    &&& if h.instance != 2 {
        r matches Err(ProtocolError::InvalidCommand)
    } else if h.attribute != 1 {
        r matches Err(ProtocolError::InvalidAttribute)
    } else if h.service != 0x10 {
        r matches Err(ProtocolError::InvalidService)
    } else if payload.len() < 4 {
        r matches Err(ProtocolError::Deserialization(m)) && m@ == "Insufficient payload length"@
    } else {
        match cycle_mode_of(u32_at(payload, 0)) {
            Some(mode) => (r matches Ok(v) && v@.len() == 0) && new == (MockState { cycle_mode: mode, ..old }),
            None => r matches Err(ProtocolError::InvalidAttribute),
        }
    }
}

impl CommandHandler for CycleModeSwitchingHandler {
    fn handle(&self, message: &HsesRequestMessage, state: &mut MockState) -> (r: Result<Vec<u8>, ProtocolError>)
        ensures
            cycle_mode_switching_handled(*old(state), *final(state), *message, r),
    {
        if message.sub_header.instance != 2 {
            return Err(ProtocolError::InvalidCommand);
        }
        if message.sub_header.attribute != 1 {
            return Err(ProtocolError::InvalidAttribute);
        }
        if message.sub_header.service != 0x10 {
            return Err(ProtocolError::InvalidService);
        }
        if message.payload.len() < 4 {
            return Err(ProtocolError::Deserialization("Insufficient payload length".to_string()));
        }
        let value = read_u32_le(message.payload.as_slice(), 0);
        let mode = if value == 1 {
            CycleMode::Step
        } else if value == 2 {
            CycleMode::OneCycle
        } else if value == 3 {
            CycleMode::Continuous
        } else {
            return Err(ProtocolError::InvalidAttribute);
        };
        state.set_cycle_mode(mode);
        Ok(Vec::new())
    }
}

} // verus!
