//! Handlers for executing job information (0x73), job start (0x86), job
//! select (0x87) and the move commands (0x8a, 0x8b).

use crate::encoding::TextEncoding;
use crate::encoding_utils::{decode_string_with_fallback, spec_decode_string};
use crate::error::{text_with_number, with_number, ProtocolError};
use crate::message::HsesRequestMessage;
use crate::mock::handlers::position::{position_updated, store_position};
use crate::mock::handlers::CommandHandler;
use crate::mock::state::MockState;
use crate::payload::job::{job_attribute_bytes, job_info_bytes, speed_fits, ExecutingJobInfo};
use crate::payload::status::{Status, StatusData1};
use crate::wire::{read_u32_le, u32_at};
use vstd::prelude::*;

verus! {

/// The reply to an executing job request for a task 1-6 with attribute
/// 0-4: for service 0x0e the attribute's bytes (attribute 0 is invalid
/// there), for service 0x01 the whole record, of the executing job or of
/// the default one (`NO_JOB`, line 0, step 0, 100 %).
pub open spec fn job_reply(job: ExecutingJobInfo, attribute: u8, service: u8, encoding: TextEncoding) -> Option<Seq<u8>> {
    if service == 0x0e {
        if 1 <= attribute <= 4 {
            Some(job_attribute_bytes(job, attribute, encoding))
        } else {
            None
        }
    } else if service == 0x01 {
        Some(job_info_bytes(job, encoding))
    } else {
        None
    }
}

/// Whether `j` is the job a request reads: the executing one, or the
/// default one when there is none.
pub open spec fn job_read(state: MockState, j: ExecutingJobInfo) -> bool {
    match state.executing_job {
        Some(e) => j == e,
        None => j.job_name@ == "NO_JOB"@ && j.line_number == 0 && j.step_number == 0
            && j.speed_override_value == 100,
    }
}

/// Reads the executing job information (command 0x73). A task outside 1-6
/// is an invalid instance, an attribute above 4 an invalid service; service
/// 0x0e with attribute 0 is an invalid attribute, a service other than 0x0e
/// and 0x01 an invalid service.
pub struct ExecutingJobInfoHandler;

/// What `ExecutingJobInfoHandler` does with a request.
pub open spec fn executing_job_info_handled(old: MockState, new: MockState, message: HsesRequestMessage, r: Result<Vec<u8>, ProtocolError>) -> bool {
    let h = message.sub_header;
    &&& new == old
    &&& if !(1 <= h.instance <= 6) {
        r matches Err(ProtocolError::InvalidInstance(m)) && m@ == with_number(
            "Invalid task type: "@,
            h.instance as nat,
            " (valid range: 1-6)"@,
        )
    } else if h.attribute > 4 {
        r matches Err(ProtocolError::InvalidService)
    } else if h.service == 0x0e && h.attribute == 0 {
        r matches Err(ProtocolError::InvalidAttribute)
    } else if h.service != 0x0e && h.service != 0x01 {
        r matches Err(ProtocolError::InvalidService)
    } else {
        exists|j: ExecutingJobInfo| #[trigger]
            job_read(old, j) && (r matches Ok(v) && Some(v@) == job_reply(j, h.attribute, h.service, old.text_encoding))
    }
}

/// Whether a job information request reaches the speed override of a job
/// whose value in 0.01 % does not fit 32 bits: a valid task and attribute,
/// asking for attribute 4 alone (service 0x0e) or for the whole record
/// (service 0x01).
pub open spec fn job_info_overflows(state: MockState, message: HsesRequestMessage) -> bool {
    let h = message.sub_header;
    &&& 1 <= h.instance <= 6
    &&& h.attribute <= 4
    &&& (h.service == 0x0e && h.attribute == 4) || h.service == 0x01
    &&& state.executing_job matches Some(j) && !speed_fits(j)
}

impl CommandHandler for ExecutingJobInfoHandler {
    open spec fn overflows(state: MockState, message: HsesRequestMessage) -> bool {
        job_info_overflows(state, message)
    }

    fn handle(&self, message: &HsesRequestMessage, state: &mut MockState) -> (r: Result<Vec<u8>, ProtocolError>)
        ensures
            executing_job_info_handled(*old(state), *final(state), *message, r),
    {
        let task_type = message.sub_header.instance;
        let attribute = message.sub_header.attribute;
        let service = message.sub_header.service;
        if !(1 <= task_type && task_type <= 6) {
            return Err(
                ProtocolError::InvalidInstance(
                    text_with_number("Invalid task type: ", task_type as u64, " (valid range: 1-6)"),
                ),
            );
        }
        if attribute > 4 {
            return Err(ProtocolError::InvalidService);
        }
        if service != 0x0e && service != 0x01 {
            return Err(ProtocolError::InvalidService);
        }
        match &state.executing_job {
            Some(job) => {
                assert(job_read(*state, *job));
                if service == 0x0e {
                    job.serialize(attribute, state.text_encoding)
                } else {
                    job.serialize_complete(state.text_encoding)
                }
            },
            None => {
                let job = ExecutingJobInfo::default();
                assert(job_read(*state, job));
                if service == 0x0e {
                    job.serialize(attribute, state.text_encoding)
                } else {
                    job.serialize_complete(state.text_encoding)
                }
            },
        }
    }
}

/// Starts the selected job (command 0x86): the instance must be 1 (else an
/// invalid instance), the attribute 1 (else an invalid attribute), the
/// service 0x10 (else an invalid service), and the payload exactly the
/// 32-bit 1 (else an invalid message). It sets the running flag; the reply
/// is empty.
pub struct JobStartHandler;

/// What `JobStartHandler` does with a request.
pub open spec fn job_start_handled(old: MockState, new: MockState, message: HsesRequestMessage, r: Result<Vec<u8>, ProtocolError>) -> bool {
    let h = message.sub_header;
    let started = Status { data1: StatusData1 { running: true, ..old.status.data1 }, ..old.status };
    &&& r is Err ==> new == old
    &&& if h.instance != 1 {
        r matches Err(ProtocolError::InvalidInstance(m)) && m@ == with_number(
            "Invalid instance: "@,
            h.instance as nat,
            " (expected: 1)"@,
        )
    } else if h.attribute != 1 {
        r matches Err(ProtocolError::InvalidAttribute)
    } else if h.service != 0x10 {
        r matches Err(ProtocolError::InvalidService)
    } else if message.payload@.len() != 4 {
        r matches Err(ProtocolError::InvalidMessage(m)) && m@ == "Invalid payload length"@
    } else if message.payload@ != seq![1u8, 0u8, 0u8, 0u8] {
        r matches Err(ProtocolError::InvalidMessage(m)) && m@ == "Invalid payload content"@
    } else {
        (r matches Ok(v) && v@.len() == 0) && new == (MockState { status: started, ..old })
    }
}

impl CommandHandler for JobStartHandler {
    fn handle(&self, message: &HsesRequestMessage, state: &mut MockState) -> (r: Result<Vec<u8>, ProtocolError>)
        ensures
            job_start_handled(*old(state), *final(state), *message, r),
    {
        if message.sub_header.instance != 1 {
            return Err(
                ProtocolError::InvalidInstance(
                    text_with_number("Invalid instance: ", message.sub_header.instance as u64, " (expected: 1)"),
                ),
            );
        }
        if message.sub_header.attribute != 1 {
            return Err(ProtocolError::InvalidAttribute);
        }
        if message.sub_header.service != 0x10 {
            return Err(ProtocolError::InvalidService);
        }
        if message.payload.len() != 4 {
            return Err(ProtocolError::InvalidMessage("Invalid payload length".to_string()));
        }
        if message.payload[0] != 1 || message.payload[1] != 0 || message.payload[2] != 0 || message.payload[3] != 0 {
            return Err(ProtocolError::InvalidMessage("Invalid payload content".to_string()));
        }
        assert(message.payload@ =~= seq![1u8, 0u8, 0u8, 0u8]);
        state.set_running(true);
        Ok(Vec::new())
    }
}

/// `s` without trailing NUL characters.
pub open spec fn trim_end_nul(s: Seq<char>) -> Seq<char>
    decreases s.len(),
{
    if s.len() > 0 && s.last() == '\0' {
        trim_end_nul(s.drop_last())
    } else {
        s
    }
}

/// The text without trailing NUL characters, as a new string.
fn without_trailing_nul(text: &String) -> (r: String)
    ensures
        r@ == trim_end_nul(text@),
{
    let mut chars: Vec<char> = Vec::new();
    for c in it: text.chars()
        invariant
            it.seq() == text@,
            chars@ == it.seq().take(it.index() as int),
    {
        chars.push(c);
    }
    assert(chars@ =~= text@);
    let mut n = chars.len();
    assert(chars@.take(n as int) =~= chars@);
    while n > 0 && chars[n - 1] == '\0'
        invariant
            n <= chars@.len(),
            chars@ == text@,
            trim_end_nul(text@) == trim_end_nul(chars@.take(n as int)),
        decreases n,
    {
        assert(chars@.take(n as int).drop_last() =~= chars@.take(n - 1));
        n = n - 1;
    }
    let mut r = String::new();
    let mut i: usize = 0;
    while i < n
        invariant
            n <= chars@.len(),
            i <= n,
            r@ == chars@.take(i as int),
        decreases n - i,
    {
        crate::commands::file::response::push_char(&mut r, chars[i]);
        i = i + 1;
        assert(r@ =~= chars@.take(i as int));
    }
    r
}

/// Whether an instance names a job select type: 1, or 10-15.
pub open spec fn valid_select_type(instance: u16) -> bool {
    instance == 1 || 10 <= instance <= 15
}

/// Selects a job (command 0x87): the instance must be 1 or 10-15 (else an
/// invalid message), the attribute 1 (else an invalid attribute), the
/// service 0x02 (else an invalid service), the payload 36 bytes (else an
/// invalid message) and the line number at most 9999 (else an invalid
/// message). It records the name of bytes 0-31 (decoded, trailing NULs
/// removed), the line number of bytes 32-35 and the instance; the reply is
/// empty.
pub struct JobSelectHandler;

/// What `JobSelectHandler` does with a request.
pub open spec fn job_select_handled(old: MockState, new: MockState, message: HsesRequestMessage, r: Result<Vec<u8>, ProtocolError>) -> bool {
    let h = message.sub_header;
    let payload = message.payload@;
    &&& r is Err ==> new == old
    &&& if !valid_select_type(h.instance) {
        r matches Err(ProtocolError::InvalidMessage(m)) && m@ == "Invalid instance"@
    } else if h.attribute != 1 {
        r matches Err(ProtocolError::InvalidAttribute)
    } else if h.service != 0x02 {
        r matches Err(ProtocolError::InvalidService)
    } else if payload.len() != 36 {
        r matches Err(ProtocolError::InvalidMessage(m)) && m@ == "Invalid payload length"@
    } else if u32_at(payload, 32) > 9999 {
        r matches Err(ProtocolError::InvalidMessage(m)) && m@ == "Line number out of range"@
    } else {
        let name = trim_end_nul(spec_decode_string(payload.take(32), old.text_encoding));
        &&& r matches Ok(v) && v@.len() == 0
        &&& new == (MockState { selected_job: new.selected_job, ..old })
        &&& new.selected_job matches Some(j) && j.job_name@ == name && j.line_number == u32_at(payload, 32)
            && j.select_type == h.instance
    }
}

impl CommandHandler for JobSelectHandler {
    fn handle(&self, message: &HsesRequestMessage, state: &mut MockState) -> (r: Result<Vec<u8>, ProtocolError>)
        ensures
            job_select_handled(*old(state), *final(state), *message, r),
    {
        let select_type = message.sub_header.instance;
        if select_type != 1 && !(10 <= select_type && select_type <= 15) {
            return Err(ProtocolError::InvalidMessage("Invalid instance".to_string()));
        }
        if message.sub_header.attribute != 1 {
            return Err(ProtocolError::InvalidAttribute);
        }
        if message.sub_header.service != 0x02 {
            return Err(ProtocolError::InvalidService);
        }
        if message.payload.len() != 36 {
            return Err(ProtocolError::InvalidMessage("Invalid payload length".to_string()));
        }
        let name_bytes = vstd::slice::slice_subrange(message.payload.as_slice(), 0, 32);
        assert(name_bytes@ =~= message.payload@.take(32));
        let decoded = decode_string_with_fallback(name_bytes, state.text_encoding);
        let job_name = without_trailing_nul(&decoded);
        let line_number = read_u32_le(message.payload.as_slice(), 32);
        if line_number > 9999 {
            return Err(ProtocolError::InvalidMessage("Line number out of range".to_string()));
        }
        state.set_selected_job(job_name, line_number, select_type);
        Ok(Vec::new())
    }
}

/// The state after a move request whose payload holds a position in its
/// first 52 bytes when it has at least `min_len` bytes: that position is
/// stored when it can be read, and the running flag is cleared.
pub open spec fn moved(old: MockState, new: MockState, payload: Seq<u8>, min_len: nat) -> bool {
    let stopped = MockState {
        status: Status { data1: StatusData1 { running: false, ..old.status.data1 }, ..old.status },
        ..old
    };
    if payload.len() >= min_len {
        position_updated(stopped, new, payload.take(52))
    } else {
        new == stopped
    }
}

/// Shared body of the move handlers.
fn handle_move(message: &HsesRequestMessage, state: &mut MockState, min_len: usize) -> (r: Result<Vec<u8>, ProtocolError>)
    requires
        min_len >= 52,
    ensures
        message.sub_header.service == 0x02 ==> (r matches Ok(v) && v@.len() == 0) && moved(
            *old(state),
            *final(state),
            message.payload@,
            min_len as nat,
        ),
        message.sub_header.service != 0x02 ==> (r matches Err(ProtocolError::InvalidService))
            && *final(state) == *old(state),
{
    if message.sub_header.service != 0x02 {
        return Err(ProtocolError::InvalidService);
    }
    let ghost start = *state;
    state.set_running(false);
    if message.payload.len() >= min_len {
        let head = vstd::slice::slice_subrange(message.payload.as_slice(), 0, 52);
        assert(head@ =~= message.payload@.take(52));
        store_position(state, head);
    }
    Ok(Vec::new())
}

/// A linear move (command 0x8a) with service 0x02: a payload of at least
/// 104 bytes moves to the position of its first 52; the job stops running.
pub struct MovHandler;

/// What `MovHandler` does with a request.
pub open spec fn mov_handled(old: MockState, new: MockState, message: HsesRequestMessage, r: Result<Vec<u8>, ProtocolError>) -> bool {
    if message.sub_header.service == 0x02 {
        (r matches Ok(v) && v@.len() == 0) && moved(old, new, message.payload@, 104)
    } else {
        (r matches Err(ProtocolError::InvalidService)) && new == old
    }
}

impl CommandHandler for MovHandler {
    fn handle(&self, message: &HsesRequestMessage, state: &mut MockState) -> (r: Result<Vec<u8>, ProtocolError>)
        ensures
            mov_handled(*old(state), *final(state), *message, r),
    {
        handle_move(message, state, 104)
    }
}

/// A pulse move (command 0x8b) with service 0x02: a payload of at least 88
/// bytes moves to the position of its first 52; the job stops running.
pub struct PmovHandler;

/// What `PmovHandler` does with a request.
pub open spec fn pmov_handled(old: MockState, new: MockState, message: HsesRequestMessage, r: Result<Vec<u8>, ProtocolError>) -> bool {
    if message.sub_header.service == 0x02 {
        (r matches Ok(v) && v@.len() == 0) && moved(old, new, message.payload@, 88)
    } else {
        (r matches Err(ProtocolError::InvalidService)) && new == old
    }
}

impl CommandHandler for PmovHandler {
    fn handle(&self, message: &HsesRequestMessage, state: &mut MockState) -> (r: Result<Vec<u8>, ProtocolError>)
        ensures
            pmov_handled(*old(state), *final(state), *message, r),
    {
        handle_move(message, state, 88)
    }
}

/// Acknowledges a cycle selection (command 0x84) with service 0x10 and an
/// empty reply, without changing the controller; any other service is
/// invalid. The registry routes 0x84 to `CycleModeSwitchingHandler`, which
/// also records the mode.
pub struct SelectCycleHandler;

/// What `SelectCycleHandler` does with a request.
pub open spec fn select_cycle_handled(old: MockState, new: MockState, message: HsesRequestMessage, r: Result<Vec<u8>, ProtocolError>) -> bool {
    &&& new == old
    &&& message.sub_header.service == 0x10 ==> (r matches Ok(v) && v@.len() == 0)
    &&& message.sub_header.service != 0x10 ==> (r matches Err(ProtocolError::InvalidService))
}

impl CommandHandler for SelectCycleHandler {
    fn handle(&self, message: &HsesRequestMessage, state: &mut MockState) -> (r: Result<Vec<u8>, ProtocolError>)
        ensures
            select_cycle_handled(*old(state), *final(state), *message, r),
    {
        if message.sub_header.service == 0x10 {
            Ok(Vec::new())
        } else {
            Err(ProtocolError::InvalidService)
        }
    }
}

} // verus!
