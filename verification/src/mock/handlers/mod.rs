//! The handlers of the simulated controller, one per command.

use crate::error::ProtocolError;
use crate::message::HsesRequestMessage;
use crate::mock::state::MockState;
use vstd::prelude::*;

pub mod alarm;
pub mod cycle_mode_switching;
pub mod file;
pub mod io;
pub mod job;
pub mod position;
pub mod register;
pub mod registry;
pub mod system;
pub mod variable;

pub use registry::CommandHandlerRegistry;

verus! {

/// Answers one request, reading and updating the controller state.
pub trait CommandHandler {
    /// Whether the request is one this handler cannot answer in `state`
    /// without overflowing an integer (a variable number, or the speed
    /// override in 0.01 %).
    open spec fn overflows(state: MockState, message: HsesRequestMessage) -> bool {
        false
    }

    /// The reply payload, or the error the request is refused with.
    fn handle(&self, message: &HsesRequestMessage, state: &mut MockState) -> (r: Result<Vec<u8>, ProtocolError>)
        requires
            old(state).valid(),
            !Self::overflows(*old(state), *message),
        ensures
            final(state).valid(),
    ;
}

/// `n` zero bytes.
pub open spec fn zeros(n: nat) -> Seq<u8> {
    Seq::new(n, |i: int| 0u8)
}

/// A vector of `n` zero bytes.
pub(crate) fn zero_bytes(n: usize) -> (r: Vec<u8>)
    ensures
        r@ == zeros(n as nat),
{
    let mut v: Vec<u8> = Vec::new();
    let mut i: usize = 0;
    while i < n
        invariant
            i <= n,
            v@ == zeros(i as nat),
        decreases n - i,
    {
        v.push(0);
        i = i + 1;
        assert(v@ =~= zeros(i as nat));
    }
    v
}

} // verus!
