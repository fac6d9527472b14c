//! Handlers for the current position (0x75), position variables (0x7f),
//! base position variables (0x80), external axis variables (0x81) and the
//! position error (0x76).

use crate::error::ProtocolError;
use crate::message::HsesRequestMessage;
use crate::mock::handlers::{zero_bytes, zeros, CommandHandler};
use crate::mock::state::MockState;
use crate::payload::position::{cartesian_of_bytes, position_bytes, pulse_joints_of_bytes, Position};
use crate::wire::{copy_range, le_u32, push_all, push_u32_le, u32_at};
use vstd::prelude::*;

verus! {

/// Whether bytes can be read as a position: at least 44 of them, of type 0
/// (pulse) or 16 (Cartesian).
pub open spec fn position_readable(data: Seq<u8>) -> bool {
    data.len() >= 44 && (u32_at(data, 0) == 0 || u32_at(data, 0) == 16)
}

/// Whether `p` is the position that readable bytes hold.
pub open spec fn position_of_bytes(data: Seq<u8>, p: Position) -> bool {
    if u32_at(data, 0) == 0 {
        p matches Position::Pulse(pulse) && pulse_joints_of_bytes(data, pulse.joints@)
    } else {
        p == Position::Cartesian(cartesian_of_bytes(data))
    }
}

/// Whether `new` is `old` with the position read from `data` when it is
/// readable, and `old` unchanged otherwise.
pub open spec fn position_updated(old: MockState, new: MockState, data: Seq<u8>) -> bool {
    if position_readable(data) {
        new == (MockState { position: new.position, ..old }) && position_of_bytes(data, new.position)
    } else {
        new == old
    }
}

/// Stores the position that `data` holds, if it can be read.
pub(crate) fn store_position(state: &mut MockState, data: &[u8])
    ensures
        position_updated(*old(state), *final(state), data@),
{
    match Position::deserialize(data, state.text_encoding) {
        Ok(p) => {
            state.update_position(p);
        },
        Err(_) => {},
    }
}

/// Reads the current position (command 0x75).
pub struct PositionHandler;

/// What `PositionHandler` does with a request.
pub open spec fn position_handled(old: MockState, new: MockState, message: HsesRequestMessage, r: Result<Vec<u8>, ProtocolError>) -> bool {
    &&& new == old
    &&& r matches Ok(v) && v@ == position_bytes(old.position)
}

impl CommandHandler for PositionHandler {
    fn handle(&self, message: &HsesRequestMessage, state: &mut MockState) -> (r: Result<Vec<u8>, ProtocolError>)
        ensures
            position_handled(*old(state), *final(state), *message, r),
    {
        state.position.serialize()
    }
}

/// The reply and the state after a position variable request with the
/// given service: 0x01 and 0x0e read the position; 0x02 and 0x10 store the
/// position the payload holds when it has at least `short_len` or 52 bytes
/// respectively (a short 0x02 payload is zero-padded to 52 bytes first);
/// other services are invalid.
pub open spec fn position_var_effect(
    old: MockState,
    new: MockState,
    service: u8,
    payload: Seq<u8>,
    short_len: nat,
    r: Result<Vec<u8>, ProtocolError>,
) -> bool {
    if service == 0x01 || service == 0x0e {
        new == old && (r matches Ok(v) && v@ == position_bytes(old.position))
    } else if service == 0x02 {
        (r matches Ok(v) && v@.len() == 0) && if payload.len() >= short_len {
            position_updated(old, new, if short_len >= 52 { payload } else { payload.take(short_len as int) + zeros((52 - short_len) as nat) })
        } else {
            new == old
        }
    } else if service == 0x10 {
        (r matches Ok(v) && v@.len() == 0) && if payload.len() >= 52 {
            position_updated(old, new, payload)
        } else {
            new == old
        }
    } else {
        new == old && (r matches Err(ProtocolError::InvalidService))
    }
}

/// Shared body of the position variable handlers.
fn handle_position_var(message: &HsesRequestMessage, state: &mut MockState, short_len: usize) -> (r: Result<
    Vec<u8>,
    ProtocolError,
>)
    requires
        short_len == 36 || short_len == 52,
    ensures
        position_var_effect(
            *old(state),
            *final(state),
            message.sub_header.service,
            message.payload@,
            short_len as nat,
            r,
        ),
{
    let service = message.sub_header.service;
    if service == 0x01 || service == 0x0e {
        state.position.serialize()
    } else if service == 0x02 {
        if message.payload.len() >= short_len {
            if short_len >= 52 {
                store_position(state, message.payload.as_slice());
            } else {
                let mut data = copy_range(message.payload.as_slice(), 0, short_len);
                let pad = zero_bytes(52 - short_len);
                push_all(&mut data, pad.as_slice());
                assert(message.payload@.take(short_len as int) =~= message.payload@.subrange(0, short_len as int));
                store_position(state, data.as_slice());
            }
        }
        Ok(Vec::new())
    } else if service == 0x10 {
        if message.payload.len() >= 52 {
            store_position(state, message.payload.as_slice());
        }
        Ok(Vec::new())
    } else {
        Err(ProtocolError::InvalidService)
    }
}

/// Reads or writes a position variable (command 0x7f); it stands for the
/// current position.
pub struct PositionVarHandler;

/// What `PositionVarHandler` does with a request.
pub open spec fn position_var_handled(old: MockState, new: MockState, message: HsesRequestMessage, r: Result<Vec<u8>, ProtocolError>) -> bool {
    position_var_effect(old, new, message.sub_header.service, message.payload@, 52, r)
}

impl CommandHandler for PositionVarHandler {
    fn handle(&self, message: &HsesRequestMessage, state: &mut MockState) -> (r: Result<Vec<u8>, ProtocolError>)
        ensures
            position_var_handled(*old(state), *final(state), *message, r),
    {
        handle_position_var(message, state, 52)
    }
}

/// Reads or writes a base position variable (command 0x80); a set-all
/// payload needs 36 bytes.
pub struct BasePositionVarHandler;

/// What `BasePositionVarHandler` does with a request.
pub open spec fn base_position_var_handled(old: MockState, new: MockState, message: HsesRequestMessage, r: Result<Vec<u8>, ProtocolError>) -> bool {
    position_var_effect(old, new, message.sub_header.service, message.payload@, 36, r)
}

impl CommandHandler for BasePositionVarHandler {
    fn handle(&self, message: &HsesRequestMessage, state: &mut MockState) -> (r: Result<Vec<u8>, ProtocolError>)
        ensures
            base_position_var_handled(*old(state), *final(state), *message, r),
    {
        handle_position_var(message, state, 36)
    }
}

/// Reads or writes an external axis variable (command 0x81); a set-all
/// payload needs 36 bytes.
pub struct ExternalAxisVarHandler;

/// What `ExternalAxisVarHandler` does with a request.
pub open spec fn external_axis_var_handled(old: MockState, new: MockState, message: HsesRequestMessage, r: Result<Vec<u8>, ProtocolError>) -> bool {
    position_var_effect(old, new, message.sub_header.service, message.payload@, 36, r)
}

impl CommandHandler for ExternalAxisVarHandler {
    fn handle(&self, message: &HsesRequestMessage, state: &mut MockState) -> (r: Result<Vec<u8>, ProtocolError>)
        ensures
            external_axis_var_handled(*old(state), *final(state), *message, r),
    {
        handle_position_var(message, state, 36)
    }
}

/// The position error of the first `n` axes: axis `i` gives `10 i`, as
/// 32-bit words.
pub open spec fn position_error_words(n: nat) -> Seq<u8>
    decreases n,
{
    if n == 0 {
        Seq::empty()
    } else {
        position_error_words((n - 1) as nat) + le_u32(((n - 1) * 10) as u32)
    }
}

/// Reads the position error of 7 axes (command 0x76).
pub struct PositionErrorHandler;

/// What `PositionErrorHandler` does with a request.
pub open spec fn position_error_handled(old: MockState, new: MockState, message: HsesRequestMessage, r: Result<Vec<u8>, ProtocolError>) -> bool {
    &&& new == old
    &&& r matches Ok(v) && v@ == position_error_words(7)
}

impl CommandHandler for PositionErrorHandler {
    fn handle(&self, message: &HsesRequestMessage, state: &mut MockState) -> (r: Result<Vec<u8>, ProtocolError>)
        ensures
            position_error_handled(*old(state), *final(state), *message, r),
    {
        let mut data = Vec::new();
        let mut i: u32 = 0;
        while i < 7
            invariant
                i <= 7,
                data@ == position_error_words(i as nat),
            decreases 7 - i,
        {
            push_u32_le(&mut data, i * 10);
            i = i + 1;
        }
        Ok(data)
    }
}

} // verus!
