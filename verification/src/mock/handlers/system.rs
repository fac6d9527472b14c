//! Handlers for status (0x72), axis names (0x74), torque (0x77), text
//! display (0x85), management time (0x88), system information (0x89) and
//! hold / servo / HLOCK (0x83).

use crate::encoding::TextEncoding;
use crate::encoding_utils::{encode_string, spec_encode_string};
use crate::error::ProtocolError;
use crate::message::HsesRequestMessage;
use crate::mock::handlers::CommandHandler;
use crate::mock::state::MockState;
use crate::payload::payload_trait::HsesPayload;
use crate::payload::status::{data1_word, data2_word, Status, StatusData1, StatusData2};
use crate::wire::{fit_to_width, i32_at, le_i32, le_u16, push_fixed_width, push_i32_le, read_i32_le};
use vstd::prelude::*;

verus! {

/// The status reply: data 1 for attribute 1, data 2 for attribute 2, both
/// words otherwise, zero-padded to 8 bytes.
pub open spec fn status_reply(s: Status, attribute: u8) -> Seq<u8> {
    let words = if attribute == 1 {
        le_u16(data1_word(s.data1))
    } else if attribute == 2 {
        le_u16(data2_word(s.data2))
    } else {
        le_u16(data1_word(s.data1)) + le_u16(data2_word(s.data2))
    };
    fit_to_width(words, 8)
}

/// Reads the status (command 0x72).
pub struct StatusHandler;

/// What `StatusHandler` does with a request.
pub open spec fn status_handled(old: MockState, new: MockState, message: HsesRequestMessage, r: Result<Vec<u8>, ProtocolError>) -> bool {
    &&& new == old
    &&& r matches Ok(v) && v@ == status_reply(old.status, message.sub_header.attribute)
}

impl CommandHandler for StatusHandler {
    fn handle(&self, message: &HsesRequestMessage, state: &mut MockState) -> (r: Result<Vec<u8>, ProtocolError>)
        ensures
            status_handled(*old(state), *final(state), *message, r),
    {
        let attribute = message.sub_header.attribute;
        let words = if attribute == 1 {
            state.status.data1.serialize(state.text_encoding)?
        } else if attribute == 2 {
            state.status.data2.serialize(state.text_encoding)?
        } else {
            state.status.serialize(state.text_encoding)?
        };
        let mut data = Vec::new();
        push_fixed_width(&mut data, words.as_slice(), 8);
        assert(data@ =~= status_reply(state.status, attribute));
        Ok(data)
    }
}

/// The first `keep` bytes (at most) of the encoded text, zero-padded to
/// `width` bytes.
pub open spec fn short_field(text: Seq<char>, encoding: TextEncoding, keep: nat, width: nat) -> Seq<u8> {
    let b = spec_encode_string(text, encoding);
    fit_to_width(b.take(if b.len() < keep { b.len() as int } else { keep as int }), width)
}

/// Appends the first `keep` bytes (at most) of the encoded text, zero-padded
/// to `width` bytes.
fn push_short_field(out: &mut Vec<u8>, text: &str, encoding: TextEncoding, keep: usize, width: usize)
    requires
        keep <= width,
    ensures
        final(out)@ == old(out)@ + short_field(text@, encoding, keep as nat, width as nat),
{
    let b = encode_string(text, encoding);
    let n = if b.len() < keep {
        b.len()
    } else {
        keep
    };
    let head = vstd::slice::slice_subrange(b.as_slice(), 0, n);
    assert(head@ =~= b@.take(n as int));
    push_fixed_width(out, head, width);
}

/// The 56-byte axis-name reply: names `1st_axis` to `7th_axis`, each
/// encoded, cut to 7 bytes and zero-padded to 8.
pub open spec fn axis_names_reply(encoding: TextEncoding) -> Seq<u8> {
    short_field("1st_axis"@, encoding, 7, 8) + short_field("2nd_axis"@, encoding, 7, 8) + short_field(
        "3rd_axis"@,
        encoding,
        7,
        8,
    ) + short_field("4th_axis"@, encoding, 7, 8) + short_field("5th_axis"@, encoding, 7, 8) + short_field(
        "6th_axis"@,
        encoding,
        7,
        8,
    ) + short_field("7th_axis"@, encoding, 7, 8)
}

/// Reads the axis names (command 0x74).
pub struct AxisNameHandler;

/// What `AxisNameHandler` does with a request.
pub open spec fn axis_name_handled(old: MockState, new: MockState, message: HsesRequestMessage, r: Result<Vec<u8>, ProtocolError>) -> bool {
    &&& new == old
    &&& r matches Ok(v) && v@ == axis_names_reply(old.text_encoding)
}

impl CommandHandler for AxisNameHandler {
    fn handle(&self, message: &HsesRequestMessage, state: &mut MockState) -> (r: Result<Vec<u8>, ProtocolError>)
        ensures
            axis_name_handled(*old(state), *final(state), *message, r),
    {
        let e = state.text_encoding;
        let mut data = Vec::new();
        push_short_field(&mut data, "1st_axis", e, 7, 8);
        push_short_field(&mut data, "2nd_axis", e, 7, 8);
        push_short_field(&mut data, "3rd_axis", e, 7, 8);
        push_short_field(&mut data, "4th_axis", e, 7, 8);
        push_short_field(&mut data, "5th_axis", e, 7, 8);
        push_short_field(&mut data, "6th_axis", e, 7, 8);
        push_short_field(&mut data, "7th_axis", e, 7, 8);
        assert(data@ =~= axis_names_reply(e));
        Ok(data)
    }
}

/// The torque of the first `n` axes: axis `i` gives `100 i`, as 32-bit words.
pub open spec fn torque_words(n: nat) -> Seq<u8>
    decreases n,
{
    if n == 0 {
        Seq::empty()
    } else {
        torque_words((n - 1) as nat) + le_i32(((n - 1) * 100) as i32)
    }
}

/// Reads the torque of 7 axes (command 0x77).
pub struct TorqueHandler;

/// What `TorqueHandler` does with a request.
pub open spec fn torque_handled(old: MockState, new: MockState, message: HsesRequestMessage, r: Result<Vec<u8>, ProtocolError>) -> bool {
    &&& new == old
    &&& r matches Ok(v) && v@ == torque_words(7)
}

impl CommandHandler for TorqueHandler {
    fn handle(&self, message: &HsesRequestMessage, state: &mut MockState) -> (r: Result<Vec<u8>, ProtocolError>)
        ensures
            torque_handled(*old(state), *final(state), *message, r),
    {
        let mut data = Vec::new();
        let mut i: i32 = 0;
        while i < 7
            invariant
                0 <= i <= 7,
                data@ == torque_words(i as nat),
            decreases 7 - i,
        {
            push_i32_le(&mut data, i * 100);
            i = i + 1;
        }
        Ok(data)
    }
}

/// The 32-byte management-time reply: start time `1234567890` and elapsed
/// time `987654321`, each in a 16-byte field of at most 15 bytes.
pub open spec fn management_time_reply(encoding: TextEncoding) -> Seq<u8> {
    short_field("1234567890"@, encoding, 15, 16) + short_field("987654321"@, encoding, 15, 16)
}

/// Reads the management time (command 0x88).
pub struct ManagementTimeHandler;

/// What `ManagementTimeHandler` does with a request.
pub open spec fn management_time_handled(old: MockState, new: MockState, message: HsesRequestMessage, r: Result<Vec<u8>, ProtocolError>) -> bool {
    &&& new == old
    &&& r matches Ok(v) && v@ == management_time_reply(old.text_encoding)
}

impl CommandHandler for ManagementTimeHandler {
    fn handle(&self, message: &HsesRequestMessage, state: &mut MockState) -> (r: Result<Vec<u8>, ProtocolError>)
        ensures
            management_time_handled(*old(state), *final(state), *message, r),
    {
        let mut data = Vec::new();
        push_short_field(&mut data, "1234567890", state.text_encoding, 15, 16);
        push_short_field(&mut data, "987654321", state.text_encoding, 15, 16);
        assert(data@ =~= management_time_reply(state.text_encoding));
        Ok(data)
    }
}

/// The 48-byte system-information reply: version `V1.0.0`, model `FS100`
/// and parameter version `P1.0.0`, each in a 16-byte field of at most 15
/// bytes.
pub open spec fn system_info_reply(encoding: TextEncoding) -> Seq<u8> {
    short_field("V1.0.0"@, encoding, 15, 16) + short_field("FS100"@, encoding, 15, 16) + short_field(
        "P1.0.0"@,
        encoding,
        15,
        16,
    )
}

/// Reads the system information (command 0x89).
pub struct SystemInfoHandler;

/// What `SystemInfoHandler` does with a request.
pub open spec fn system_info_handled(old: MockState, new: MockState, message: HsesRequestMessage, r: Result<Vec<u8>, ProtocolError>) -> bool {
    &&& new == old
    &&& r matches Ok(v) && v@ == system_info_reply(old.text_encoding)
}

impl CommandHandler for SystemInfoHandler {
    fn handle(&self, message: &HsesRequestMessage, state: &mut MockState) -> (r: Result<Vec<u8>, ProtocolError>)
        ensures
            system_info_handled(*old(state), *final(state), *message, r),
    {
        let mut data = Vec::new();
        push_short_field(&mut data, "V1.0.0", state.text_encoding, 15, 16);
        push_short_field(&mut data, "FS100", state.text_encoding, 15, 16);
        push_short_field(&mut data, "P1.0.0", state.text_encoding, 15, 16);
        assert(data@ =~= system_info_reply(state.text_encoding));
        Ok(data)
    }
}

/// Accepts a text display request (command 0x85) with service 0x10; any
/// other service is invalid.
pub struct TextDisplayHandler;

/// What `TextDisplayHandler` does with a request.
pub open spec fn text_display_handled(old: MockState, new: MockState, message: HsesRequestMessage, r: Result<Vec<u8>, ProtocolError>) -> bool {
    &&& new == old
    &&& message.sub_header.service == 0x10 ==> (r matches Ok(v) && v@.len() == 0)
    &&& message.sub_header.service != 0x10 ==> (r matches Err(ProtocolError::InvalidService))
}

impl CommandHandler for TextDisplayHandler {
    fn handle(&self, message: &HsesRequestMessage, state: &mut MockState) -> (r: Result<Vec<u8>, ProtocolError>)
        ensures
            text_display_handled(*old(state), *final(state), *message, r),
    {
        if message.sub_header.service == 0x10 {
            Ok(Vec::new())
        } else {
            Err(ProtocolError::InvalidService)
        }
    }
}

/// The state after a hold / servo / HLOCK request: type 1 sets the hold
/// (command hold on, running off, or the reverse), type 2 the servo power,
/// type 3 HLOCK, each on when the value is 1 and off otherwise; any other
/// type changes nothing.
pub open spec fn hold_servo_state(s: MockState, control_type: u16, value: i32) -> MockState {
    let on = value == 1;
    if control_type == 1 {
        MockState {
            hold_state: on,
            status: Status {
                data1: StatusData1 { running: !on, ..s.status.data1 },
                data2: StatusData2 { command_hold: on, ..s.status.data2 },
            },
            ..s
        }
    } else if control_type == 2 {
        MockState {
            servo_on: on,
            status: Status { data2: StatusData2 { servo_on: on, ..s.status.data2 }, ..s.status },
            ..s
        }
    } else if control_type == 3 {
        MockState { hlock_state: on, ..s }
    } else {
        s
    }
}

/// Switches hold, servo power or HLOCK (command 0x83); the instance names
/// which and the first 4 payload bytes the value. A payload under 4 bytes
/// changes nothing. The reply is empty.
pub struct HoldServoHandler;

/// What `HoldServoHandler` does with a request.
pub open spec fn hold_servo_handled(old: MockState, new: MockState, message: HsesRequestMessage, r: Result<Vec<u8>, ProtocolError>) -> bool {
    let payload = message.payload@;
    &&& r matches Ok(v) && v@.len() == 0
    &&& payload.len() >= 4 ==> new == hold_servo_state(old, message.sub_header.instance, i32_at(payload, 0))
    &&& payload.len() < 4 ==> new == old
}

impl CommandHandler for HoldServoHandler {
    fn handle(&self, message: &HsesRequestMessage, state: &mut MockState) -> (r: Result<Vec<u8>, ProtocolError>)
        ensures
            hold_servo_handled(*old(state), *final(state), *message, r),
    {
        if message.payload.len() >= 4 {
            let value = read_i32_le(message.payload.as_slice(), 0);
            let control_type = message.sub_header.instance;
            if control_type == 1 {
                state.set_hold(value == 1);
            } else if control_type == 2 {
                state.set_servo(value == 1);
            } else if control_type == 3 {
                state.set_hlock(value == 1);
            }
        }
        Ok(Vec::new())
    }
}

} // verus!
