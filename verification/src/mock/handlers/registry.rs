//! Dispatch of requests to the handler of their command.

use crate::error::ProtocolError;
use crate::message::HsesRequestMessage;
use crate::mock::handlers::alarm::{
    alarm_data_handled, alarm_info_handled, alarm_reset_handled, AlarmDataHandler, AlarmInfoHandler,
    AlarmResetHandler,
};
use crate::mock::handlers::cycle_mode_switching::{cycle_mode_switching_handled, CycleModeSwitchingHandler};
use crate::mock::handlers::file::{file_control_handled, FileControlHandler};
use crate::mock::handlers::io::{io_handled, IoHandler, RegisterHandler};
use crate::mock::handlers::job::{
    executing_job_info_handled, job_select_handled, job_start_handled, mov_handled, pmov_handled,
    ExecutingJobInfoHandler, JobSelectHandler, JobStartHandler, MovHandler, PmovHandler,
};
use crate::mock::handlers::position::{
    base_position_var_handled, external_axis_var_handled, position_error_handled, position_handled,
    position_var_handled, BasePositionVarHandler, ExternalAxisVarHandler, PositionErrorHandler,
    PositionHandler, PositionVarHandler,
};
use crate::mock::handlers::system::{
    axis_name_handled, hold_servo_handled, management_time_handled, status_handled, system_info_handled,
    text_display_handled, torque_handled, AxisNameHandler, HoldServoHandler, ManagementTimeHandler,
    StatusHandler, SystemInfoHandler, TextDisplayHandler, TorqueHandler,
};
use crate::mock::handlers::variable::{
    byte_var_handled, double_var_handled, integer_var_handled, real_var_handled, string_var_handled,
    ByteVarHandler, DoubleVarHandler, IntegerVarHandler, RealVarHandler, StringVarHandler,
};
use crate::mock::handlers::CommandHandler;
use crate::mock::state::MockState;
use vstd::prelude::*;

verus! {

/// Whether a request would overflow an integer in its handler: a job
/// information request that reaches a speed override too large for the
/// wire.
pub open spec fn request_overflows(state: MockState, message: HsesRequestMessage) -> bool {
    message.sub_header.command == 0x73 && ExecutingJobInfoHandler::overflows(state, message)
}

/// What the controller does with a request: the handler of its command
/// answers it; a command without a handler is an invalid command and
/// changes nothing.
pub open spec fn dispatched(old: MockState, new: MockState, message: HsesRequestMessage, r: Result<Vec<u8>, ProtocolError>) -> bool {
    let c = message.sub_header.command;
    if c == 0x00 {
        file_control_handled(old, new, message, r)
    } else if c == 0x70 {
        alarm_data_handled(old, new, message, r)
    } else if c == 0x71 {
        alarm_info_handled(old, new, message, r)
    } else if c == 0x72 {
        status_handled(old, new, message, r)
    } else if c == 0x73 {
        executing_job_info_handled(old, new, message, r)
    } else if c == 0x74 {
        axis_name_handled(old, new, message, r)
    } else if c == 0x75 {
        position_handled(old, new, message, r)
    } else if c == 0x76 {
        position_error_handled(old, new, message, r)
    } else if c == 0x77 {
        torque_handled(old, new, message, r)
    } else if c == 0x78 {
        io_handled(old, new, message, r)
    } else if c == 0x79 {
        crate::mock::handlers::io::register_handled(old, new, message, r)
    } else if c == 0x7a {
        byte_var_handled(old, new, message, r)
    } else if c == 0x7b {
        integer_var_handled(old, new, message, r)
    } else if c == 0x7c {
        double_var_handled(old, new, message, r)
    } else if c == 0x7d {
        real_var_handled(old, new, message, r)
    } else if c == 0x7e {
        string_var_handled(old, new, message, r)
    } else if c == 0x7f {
        position_var_handled(old, new, message, r)
    } else if c == 0x80 {
        base_position_var_handled(old, new, message, r)
    } else if c == 0x81 {
        external_axis_var_handled(old, new, message, r)
    } else if c == 0x82 {
        alarm_reset_handled(old, new, message, r)
    } else if c == 0x83 {
        hold_servo_handled(old, new, message, r)
    } else if c == 0x84 {
        cycle_mode_switching_handled(old, new, message, r)
    } else if c == 0x85 {
        text_display_handled(old, new, message, r)
    } else if c == 0x86 {
        job_start_handled(old, new, message, r)
    } else if c == 0x87 {
        job_select_handled(old, new, message, r)
    } else if c == 0x88 {
        management_time_handled(old, new, message, r)
    } else if c == 0x89 {
        system_info_handled(old, new, message, r)
    } else if c == 0x8a {
        mov_handled(old, new, message, r)
    } else if c == 0x8b {
        pmov_handled(old, new, message, r)
    } else {
        (r matches Err(ProtocolError::InvalidCommand)) && new == old
    }
}

/// The table of command handlers.
#[derive(Clone)]
pub struct CommandHandlerRegistry;

impl CommandHandlerRegistry {
    /// The registry of every handler.
    pub fn new() -> (r: Self) {
        CommandHandlerRegistry
    }

    /// Answers a request with the handler of its command.
    pub fn handle(&self, message: &HsesRequestMessage, state: &mut MockState) -> (r: Result<Vec<u8>, ProtocolError>)
        requires
            old(state).valid(),
            !request_overflows(*old(state), *message),
        ensures
            final(state).valid(),
            dispatched(*old(state), *final(state), *message, r),
    {
        let c = message.sub_header.command;
        if c == 0x00 {
            FileControlHandler.handle(message, state)
        } else if c == 0x70 {
            AlarmDataHandler.handle(message, state)
        } else if c == 0x71 {
            AlarmInfoHandler.handle(message, state)
        } else if c == 0x72 {
            StatusHandler.handle(message, state)
        } else if c == 0x73 {
            ExecutingJobInfoHandler.handle(message, state)
        } else if c == 0x74 {
            AxisNameHandler.handle(message, state)
        } else if c == 0x75 {
            PositionHandler.handle(message, state)
        } else if c == 0x76 {
            PositionErrorHandler.handle(message, state)
        } else if c == 0x77 {
            TorqueHandler.handle(message, state)
        } else if c == 0x78 {
            IoHandler.handle(message, state)
        } else if c == 0x79 {
            RegisterHandler.handle(message, state)
        } else if c == 0x7a {
            ByteVarHandler.handle(message, state)
        } else if c == 0x7b {
            IntegerVarHandler.handle(message, state)
        } else if c == 0x7c {
            DoubleVarHandler.handle(message, state)
        } else if c == 0x7d {
            RealVarHandler.handle(message, state)
        } else if c == 0x7e {
            StringVarHandler.handle(message, state)
        } else if c == 0x7f {
            PositionVarHandler.handle(message, state)
        } else if c == 0x80 {
            BasePositionVarHandler.handle(message, state)
        } else if c == 0x81 {
            ExternalAxisVarHandler.handle(message, state)
        } else if c == 0x82 {
            AlarmResetHandler.handle(message, state)
        } else if c == 0x83 {
            HoldServoHandler.handle(message, state)
        } else if c == 0x84 {
            CycleModeSwitchingHandler.handle(message, state)
        } else if c == 0x85 {
            TextDisplayHandler.handle(message, state)
        } else if c == 0x86 {
            JobStartHandler.handle(message, state)
        } else if c == 0x87 {
            JobSelectHandler.handle(message, state)
        } else if c == 0x88 {
            ManagementTimeHandler.handle(message, state)
        } else if c == 0x89 {
            SystemInfoHandler.handle(message, state)
        } else if c == 0x8a {
            MovHandler.handle(message, state)
        } else if c == 0x8b {
            PmovHandler.handle(message, state)
        } else {
            Err(ProtocolError::InvalidCommand)
        }
    }
}

impl Default for CommandHandlerRegistry {
    fn default() -> (r: Self) {
        Self::new()
    }
}

} // verus!
