//! Handlers for alarm data (0x70), alarm history (0x71) and alarm reset (0x82).

use crate::encoding::TextEncoding;
use crate::error::ProtocolError;
use crate::message::HsesRequestMessage;
use crate::mock::handlers::{zero_bytes, zeros, CommandHandler};
use crate::mock::state::{with_alarm_flag, MockState};
use crate::payload::alarm::{alarm_attribute_bytes, alarm_bytes, Alarm};
use crate::payload::status::{Status, StatusData2};
use crate::wire::copy_range;
use vstd::prelude::*;

verus! {

/// The 60-byte reply about alarm `instance` (counted from 1) of `alarms`:
/// all zero when there is no such alarm; for attribute 0 the first 60 bytes
/// of the whole alarm; for attributes 1-8 the first 8 bytes of that field
/// when it has as many, then zeros. `None` for an attribute above 8.
pub open spec fn alarm_reply(alarms: Seq<Alarm>, instance: u16, attribute: u8, encoding: TextEncoding) -> Option<
    Seq<u8>,
> {
    if instance == 0 || instance > alarms.len() {
        Some(zeros(60))
    } else {
        let a = alarms[instance - 1];
        if attribute == 0 {
            Some(alarm_bytes(a, encoding).take(60))
        } else if attribute > 8 {
            None
        } else {
            let field = alarm_attribute_bytes(a, attribute, encoding);
            if field.len() >= 8 {
                Some(field.take(8) + zeros(52))
            } else {
                Some(zeros(60))
            }
        }
    }
}

/// Builds the alarm reply; an attribute above 8 is invalid.
fn read_alarm(alarms: &Vec<Alarm>, instance: u16, attribute: u8, encoding: TextEncoding) -> (r: Result<
    Vec<u8>,
    ProtocolError,
>)
    ensures
        match alarm_reply(alarms@, instance, attribute, encoding) {
            Some(bytes) => r matches Ok(v) && v@ == bytes,
            None => r matches Err(ProtocolError::InvalidAttribute),
        },
{
    let index = instance as usize;
    if index == 0 || index > alarms.len() {
        return Ok(zero_bytes(60));
    }
    let alarm = &alarms[index - 1];
    if attribute == 0 {
        let all = alarm.serialize_complete(encoding)?;
        Ok(copy_range(all.as_slice(), 0, 60))
    } else {
        let field = alarm.serialize(attribute, encoding)?;
        if field.len() >= 8 {
            let mut data = copy_range(field.as_slice(), 0, 8);
            let rest = zero_bytes(52);
            let mut i: usize = 0;
            while i < 52
                invariant
                    i <= 52,
                    rest@ == zeros(52),
                    data@ == field@.take(8) + zeros(i as nat),
                decreases 52 - i,
            {
                data.push(0);
                i = i + 1;
                assert(data@ =~= field@.take(8) + zeros(i as nat));
            }
            Ok(data)
        } else {
            Ok(zero_bytes(60))
        }
    }
}

/// Reads the current alarms (command 0x70).
pub struct AlarmDataHandler;

/// What `AlarmDataHandler` does with a request.
pub open spec fn alarm_data_handled(old: MockState, new: MockState, message: HsesRequestMessage, r: Result<Vec<u8>, ProtocolError>) -> bool {
    let h = message.sub_header;
    &&& new == old
    &&& match alarm_reply(old.alarms@, h.instance, h.attribute, old.text_encoding) {
        Some(bytes) => r matches Ok(v) && v@ == bytes,
        None => r matches Err(ProtocolError::InvalidAttribute),
    }
}

impl CommandHandler for AlarmDataHandler {
    fn handle(&self, message: &HsesRequestMessage, state: &mut MockState) -> (r: Result<Vec<u8>, ProtocolError>)
        ensures
            alarm_data_handled(*old(state), *final(state), *message, r),
    {
        read_alarm(&state.alarms, message.sub_header.instance, message.sub_header.attribute, state.text_encoding)
    }
}

/// Reads alarm information (command 0x71); it answers from the current
/// alarms, as alarm data does.
pub struct AlarmInfoHandler;

/// What `AlarmInfoHandler` does with a request.
pub open spec fn alarm_info_handled(old: MockState, new: MockState, message: HsesRequestMessage, r: Result<Vec<u8>, ProtocolError>) -> bool {
    let h = message.sub_header;
    &&& new == old
    &&& match alarm_reply(old.alarms@, h.instance, h.attribute, old.text_encoding) {
        Some(bytes) => r matches Ok(v) && v@ == bytes,
        None => r matches Err(ProtocolError::InvalidAttribute),
    }
}

impl CommandHandler for AlarmInfoHandler {
    fn handle(&self, message: &HsesRequestMessage, state: &mut MockState) -> (r: Result<Vec<u8>, ProtocolError>)
        ensures
            alarm_info_handled(*old(state), *final(state), *message, r),
    {
        read_alarm(&state.alarms, message.sub_header.instance, message.sub_header.attribute, state.text_encoding)
    }
}

/// Resets alarms or cancels the error (command 0x82): instance 1 clears the
/// alarms and the alarm flag, instance 2 clears the error flag, any other
/// instance does nothing. The reply is empty.
pub struct AlarmResetHandler;

/// What `AlarmResetHandler` does with a request.
pub open spec fn alarm_reset_handled(old: MockState, new: MockState, message: HsesRequestMessage, r: Result<Vec<u8>, ProtocolError>) -> bool {
    let instance = message.sub_header.instance;
    let cleared = Status { data2: StatusData2 { error: false, ..old.status.data2 }, ..old.status };
    &&& r matches Ok(v) && v@.len() == 0
    &&& instance == 1 ==> {
        &&& new == (MockState { alarms: new.alarms, status: with_alarm_flag(old.status, false), ..old })
        &&& new.alarms@.len() == 0
    }
    &&& instance == 2 ==> new == (MockState { status: cleared, ..old })
    &&& instance != 1 && instance != 2 ==> new == old
}

impl CommandHandler for AlarmResetHandler {
    fn handle(&self, message: &HsesRequestMessage, state: &mut MockState) -> (r: Result<Vec<u8>, ProtocolError>)
        ensures
            alarm_reset_handled(*old(state), *final(state), *message, r),
    {
        if message.sub_header.instance == 1 {
            state.clear_alarms();
        } else if message.sub_header.instance == 2 {
            state.status.data2.error = false;
        }
        Ok(Vec::new())
    }
}

} // verus!
