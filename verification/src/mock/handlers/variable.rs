//! Handlers for B, I, D, R and S variables (0x7a-0x7e) and for plural B, I,
//! D and R variables (0x302-0x305). All variable kinds share one store of
//! variable bytes.

use crate::error::{text_with_number, text_with_two_numbers, with_number, with_two_numbers, ProtocolError};
use crate::message::HsesRequestMessage;
use crate::mock::handlers::{zero_bytes, zeros, CommandHandler};
use crate::mock::state::{byte_var, double_var, int_var, var_at, vars_written, MockState};
use crate::payload::variable::{flatten_map, i16s_bytes, i32s_bytes};
use crate::wire::{
    copy_range, fit_to_width, le_i16, le_i32, le_u32, push_all, push_fixed_width, push_i16_le, push_i32_le,
    push_u32_le, read_i16_le, read_i32_le, read_u32_le, u32_at,
};
use vstd::prelude::*;

verus! {

/// The reply to a single variable read, given how many bytes the type
/// has (1, 2 or 4 read whole or as zeros, `pad` ones zero-padded).
pub open spec fn var_reply(m: Map<u16, Vec<u8>>, n: u16, width: nat, pad: bool) -> Seq<u8> {
    match var_at(m, n as int) {
        Some(b) => if pad {
            fit_to_width(b, width)
        } else if b.len() >= width {
            b.take(width as int)
        } else {
            zeros(width)
        },
        None => zeros(width),
    }
}

/// What a single variable request does: a variable above 99 is an invalid
/// instance; service 0x0e answers `var_reply` followed by `reserved` zero
/// bytes; service 0x10 stores the payload (an empty one changes nothing) and
/// answers nothing; any other service is invalid.
pub open spec fn single_var_handled(
    old: MockState,
    new: MockState,
    message: HsesRequestMessage,
    width: nat,
    pad: bool,
    reserved: nat,
    r: Result<Vec<u8>, ProtocolError>,
) -> bool {
    let n = message.sub_header.instance;
    if n > 99 {
        (r matches Err(ProtocolError::InvalidInstance(m)) && m@ == variable_index_refusal(n)) && new == old
    } else if message.sub_header.service == 0x0e {
        new == old && (r matches Ok(v) && v@ == var_reply(old.variables@, n, width, pad) + zeros(reserved))
    } else if message.sub_header.service == 0x10 {
        (r matches Ok(v) && v@.len() == 0) && if message.payload@.len() > 0 {
            new == (MockState { variables: new.variables, ..old }) && new.variables@.dom() == old.variables@.dom().insert(n)
                && (forall|k: u16| k != n && old.variables@.contains_key(k) ==> new.variables@[k] == old.variables@[k])
                && new.variables@[n]@ == message.payload@
        } else {
            new == old
        }
    } else {
        (r matches Err(ProtocolError::InvalidService)) && new == old
    }
}

/// The message that refuses variable number `n`.
pub open spec fn variable_index_refusal(n: u16) -> Seq<char> {
    with_number("Invalid variable index: "@, n as nat, " (valid range: 0-99)"@)
}

/// Shared body of the single variable handlers.
fn handle_single_var(message: &HsesRequestMessage, state: &mut MockState, width: usize, pad: bool, reserved: usize) -> (r: Result<
    Vec<u8>,
    ProtocolError,
>)
    requires
        width == 1 || width == 2 || width == 4,
        reserved <= 2,
    ensures
        single_var_handled(*old(state), *final(state), *message, width as nat, pad, reserved as nat, r),
{
    let n = message.sub_header.instance;
    if n > 99 {
        return Err(
                ProtocolError::InvalidInstance(
                    text_with_number("Invalid variable index: ", n as u64, " (valid range: 0-99)"),
                ),
            );
    }
    let service = message.sub_header.service;
    if service == 0x0e {
        let mut v = match state.get_variable(n) {
            Some(value) => {
                if pad {
                    let mut v = Vec::new();
                    push_fixed_width(&mut v, value.as_slice(), width);
                    v
                } else if value.len() >= width {
                    copy_range(value.as_slice(), 0, width)
                } else {
                    zero_bytes(width)
                }
            },
            None => zero_bytes(width),
        };
        let tail = zero_bytes(reserved);
        push_all(&mut v, tail.as_slice());
        Ok(v)
    } else if service == 0x10 {
        if message.payload.len() > 0 {
            let value = copy_range(message.payload.as_slice(), 0, message.payload.len());
            assert(value@ =~= message.payload@);
            state.set_variable(n, value);
        }
        Ok(Vec::new())
    } else {
        Err(ProtocolError::InvalidService)
    }
}

/// Reads or writes a B variable (command 0x7a): one byte.
pub struct ByteVarHandler;

/// What `ByteVarHandler` does with a request.
pub open spec fn byte_var_handled(old: MockState, new: MockState, message: HsesRequestMessage, r: Result<Vec<u8>, ProtocolError>) -> bool {
    single_var_handled(old, new, message, 1, false, 0, r)
}

impl CommandHandler for ByteVarHandler {
    fn handle(&self, message: &HsesRequestMessage, state: &mut MockState) -> (r: Result<Vec<u8>, ProtocolError>)
        ensures
            byte_var_handled(*old(state), *final(state), *message, r),
    {
        handle_single_var(message, state, 1, false, 0)
    }
}

/// Reads or writes an I variable (command 0x7b): a read answers its two
/// bytes and two reserved zero bytes.
pub struct IntegerVarHandler;

/// What `IntegerVarHandler` does with a request.
pub open spec fn integer_var_handled(old: MockState, new: MockState, message: HsesRequestMessage, r: Result<Vec<u8>, ProtocolError>) -> bool {
    single_var_handled(old, new, message, 2, false, 2, r)
}

impl CommandHandler for IntegerVarHandler {
    fn handle(&self, message: &HsesRequestMessage, state: &mut MockState) -> (r: Result<Vec<u8>, ProtocolError>)
        ensures
            integer_var_handled(*old(state), *final(state), *message, r),
    {
        handle_single_var(message, state, 2, false, 2)
    }
}

/// Reads or writes a D variable (command 0x7c): four bytes.
pub struct DoubleVarHandler;

/// What `DoubleVarHandler` does with a request.
pub open spec fn double_var_handled(old: MockState, new: MockState, message: HsesRequestMessage, r: Result<Vec<u8>, ProtocolError>) -> bool {
    single_var_handled(old, new, message, 4, false, 0, r)
}

impl CommandHandler for DoubleVarHandler {
    fn handle(&self, message: &HsesRequestMessage, state: &mut MockState) -> (r: Result<Vec<u8>, ProtocolError>)
        ensures
            double_var_handled(*old(state), *final(state), *message, r),
    {
        handle_single_var(message, state, 4, false, 0)
    }
}

/// Reads or writes an R variable (command 0x7d): four bytes, a shorter
/// stored value zero-padded.
pub struct RealVarHandler;

/// What `RealVarHandler` does with a request.
pub open spec fn real_var_handled(old: MockState, new: MockState, message: HsesRequestMessage, r: Result<Vec<u8>, ProtocolError>) -> bool {
    single_var_handled(old, new, message, 4, true, 0, r)
}

impl CommandHandler for RealVarHandler {
    fn handle(&self, message: &HsesRequestMessage, state: &mut MockState) -> (r: Result<Vec<u8>, ProtocolError>)
        ensures
            real_var_handled(*old(state), *final(state), *message, r),
    {
        handle_single_var(message, state, 4, true, 0)
    }
}

/// `s` without trailing zero bytes.
pub open spec fn trim_trailing_zeros(s: Seq<u8>) -> Seq<u8>
    decreases s.len(),
{
    if s.len() > 0 && s.last() == 0 {
        trim_trailing_zeros(s.drop_last())
    } else {
        s
    }
}

/// Reads or writes an S variable (command 0x7e). A variable above 99 is an
/// invalid instance. Service 0x0e answers the stored bytes cut or
/// zero-padded to 16; service 0x10 stores the first 16 payload bytes (at
/// most) without trailing zeros (an empty payload changes nothing) and
/// answers nothing; any other service is invalid.
pub struct StringVarHandler;

/// What `StringVarHandler` does with a request.
pub open spec fn string_var_handled(old: MockState, new: MockState, message: HsesRequestMessage, r: Result<Vec<u8>, ProtocolError>) -> bool {
    let n = message.sub_header.instance;
    let payload = message.payload@;
    let kept: int = if payload.len() < 16 {
        payload.len() as int
    } else {
        16
    };
    if n > 99 {
        (r matches Err(ProtocolError::InvalidInstance(m)) && m@ == variable_index_refusal(n)) && new == old
    } else if message.sub_header.service == 0x0e {
        new == old && (r matches Ok(v) && v@ == var_reply(old.variables@, n, 16, true))
    } else if message.sub_header.service == 0x10 {
        &&& r matches Ok(v) && v@.len() == 0
        &&& payload.len() > 0 ==> {
            &&& new == (MockState { variables: new.variables, ..old })
            &&& new.variables@.dom() == old.variables@.dom().insert(n)
            &&& forall|k: u16| k != n && old.variables@.contains_key(k) ==> new.variables@[k] == old.variables@[k]
            &&& new.variables@[n]@ == trim_trailing_zeros(payload.take(kept))
        }
        &&& payload.len() == 0 ==> new == old
    } else {
        (r matches Err(ProtocolError::InvalidService)) && new == old
    }
}

impl CommandHandler for StringVarHandler {
    fn handle(&self, message: &HsesRequestMessage, state: &mut MockState) -> (r: Result<Vec<u8>, ProtocolError>)
        ensures
            string_var_handled(*old(state), *final(state), *message, r),
    {
        let n = message.sub_header.instance;
        if n > 99 {
            return Err(
                ProtocolError::InvalidInstance(
                    text_with_number("Invalid variable index: ", n as u64, " (valid range: 0-99)"),
                ),
            );
        }
        let service = message.sub_header.service;
        if service == 0x0e {
            let mut v = Vec::new();
            match state.get_variable(n) {
                Some(value) => push_fixed_width(&mut v, value.as_slice(), 16),
                None => push_fixed_width(&mut v, &[], 16),
            }
            Ok(v)
        } else if service == 0x10 {
            if message.payload.len() > 0 {
                let len = if message.payload.len() < 16 {
                    message.payload.len()
                } else {
                    16
                };
                let mut end = len;
                assert(message.payload@.take(len as int).take(end as int) =~= message.payload@.take(len as int));
                while end > 0 && message.payload[end - 1] == 0
                    invariant
                        end <= len <= message.payload@.len(),
                        trim_trailing_zeros(message.payload@.take(len as int)) == trim_trailing_zeros(
                            message.payload@.take(end as int),
                        ),
                    decreases end,
                {
                    assert(message.payload@.take(end as int).drop_last() =~= message.payload@.take(end - 1));
                    end = end - 1;
                }
                let value = copy_range(message.payload.as_slice(), 0, end);
                assert(value@ =~= message.payload@.take(end as int));
                state.set_variable(n, value);
            }
            Ok(Vec::new())
        } else {
            Err(ProtocolError::InvalidService)
        }
    }
}

/// Whether a plural variable request passes the checks before its service:
/// attribute 0, a payload of at least 4 bytes, and a count of 1 up to `max`
/// (even where `even` asks for it).
pub open spec fn plural_var_checks(message: HsesRequestMessage, max: u32, even: bool) -> bool {
    &&& message.sub_header.attribute == 0
    &&& message.payload@.len() >= 4
    &&& 1 <= u32_at(message.payload@, 0) <= max
    &&& even ==> u32_at(message.payload@, 0) % 2 == 0
}

/// Whether a plural variable request that passes its checks reaches
/// variable numbers past 65535.
pub open spec fn plural_var_overflows(message: HsesRequestMessage, max: u32, even: bool, width: int) -> bool {
    let count = u32_at(message.payload@, 0) as int;
    &&& plural_var_checks(message, max, even)
    &&& message.sub_header.service == 0x33 || (message.sub_header.service == 0x34 && message.payload@.len()
        == 4 + width * count)
    &&& message.sub_header.instance + count > 0x1_0000
}

/// The message that refuses a plural variable request of attribute 0 that
/// fails its checks: a payload under 4 bytes, or a count that is not
/// allowed, with `count_tail` saying which counts are.
pub open spec fn plural_var_refusal(message: HsesRequestMessage, count_tail: Seq<char>) -> Seq<char> {
    let start = message.sub_header.instance as nat;
    if message.payload@.len() < 4 {
        with_two_numbers(
            "Payload too short: "@,
            message.payload@.len(),
            " bytes for start_variable "@,
            start,
            " (need at least 4 bytes)"@,
        )
    } else {
        with_two_numbers("Invalid count: "@, u32_at(message.payload@, 0) as nat, " for start_variable "@, start, count_tail)
    }
}

/// The message that refuses a plural write whose payload does not hold
/// `width` bytes per value: the B variable handler gives no lengths, the
/// others give both.
pub open spec fn plural_length_refusal(len: nat, width: int, count: int) -> Seq<char> {
    if width == 1 {
        "Invalid payload length"@
    } else {
        with_two_numbers("Invalid payload length: got "@, len, " bytes, expected "@, (4 + width * count) as nat, ""@)
    }
}

/// What a plural variable request does, given the reply of a read and the
/// values a write stores: an attribute other than 0 is invalid; a short
/// payload or a count that is not allowed is an invalid message. A read
/// (0x33) answers the count and `read_reply`; a write (0x34) needs exactly
/// `width` bytes per value after the count (else an invalid message),
/// stores `written` and answers the count. Any other service is invalid.
pub open spec fn plural_var_handled(
    old: MockState,
    new: MockState,
    message: HsesRequestMessage,
    max: u32,
    even: bool,
    count_tail: Seq<char>,
    width: int,
    read_reply: Seq<u8>,
    written: Seq<Seq<u8>>,
    r: Result<Vec<u8>, ProtocolError>,
) -> bool {
    let count = u32_at(message.payload@, 0) as int;
    if message.sub_header.attribute != 0 {
        (r matches Err(ProtocolError::InvalidAttribute)) && new == old
    } else if !plural_var_checks(message, max, even) {
        (r matches Err(ProtocolError::InvalidMessage(m)) && m@ == plural_var_refusal(message, count_tail)) && new
            == old
    } else if message.sub_header.service == 0x33 {
        new == old && (r matches Ok(v) && v@ == le_u32(count as u32) + read_reply)
    } else if message.sub_header.service == 0x34 {
        if message.payload@.len() != 4 + width * count {
            (r matches Err(ProtocolError::InvalidMessage(m)) && m@ == plural_length_refusal(
                message.payload@.len(),
                width,
                count,
            )) && new == old
        } else {
            (r matches Ok(v) && v@ == le_u32(count as u32)) && new == (MockState { variables: new.variables, ..old })
                && vars_written(old.variables@, new.variables@, message.sub_header.instance as int, written)
        }
    } else {
        (r matches Err(ProtocolError::InvalidService)) && new == old
    }
}

/// The count of a plural variable request after its checks; an error when
/// they fail.
fn plural_var_count(message: &HsesRequestMessage, max: u32, even: bool, count_tail: &str) -> (r: Result<u32, ProtocolError>)
    ensures
        message.sub_header.attribute != 0 ==> r matches Err(ProtocolError::InvalidAttribute),
        message.sub_header.attribute == 0 && !plural_var_checks(*message, max, even) ==> (r matches Err(
            ProtocolError::InvalidMessage(m),
        ) && m@ == plural_var_refusal(*message, count_tail@)),
        plural_var_checks(*message, max, even) ==> r == Ok::<u32, ProtocolError>(u32_at(message.payload@, 0)),
{
    if message.sub_header.attribute != 0 {
        return Err(ProtocolError::InvalidAttribute);
    }
    let start = message.sub_header.instance;
    if message.payload.len() < 4 {
        return Err(
            ProtocolError::InvalidMessage(
                text_with_two_numbers(
                    "Payload too short: ",
                    message.payload.len() as u64,
                    " bytes for start_variable ",
                    start as u64,
                    " (need at least 4 bytes)",
                ),
            ),
        );
    }
    let count = read_u32_le(message.payload.as_slice(), 0);
    if count == 0 || count > max || (even && count % 2 != 0) {
        return Err(
            ProtocolError::InvalidMessage(
                text_with_two_numbers("Invalid count: ", count as u64, " for start_variable ", start as u64, count_tail),
            ),
        );
    }
    Ok(count)
}

/// The B variables a plural read answers with.
pub open spec fn byte_vars_from(m: Map<u16, Vec<u8>>, start: int, count: int) -> Seq<u8> {
    Seq::new(count as nat, |i: int| byte_var(m, start + i))
}

/// Reads or writes plural B variables (command 0x302); counts are 1-474
/// and even.
pub struct PluralByteVarHandler;

/// What `PluralByteVarHandler` does with a request.
pub open spec fn plural_byte_var_handled(old: MockState, new: MockState, message: HsesRequestMessage, r: Result<Vec<u8>, ProtocolError>) -> bool {
    plural_var_handled(
        old,
        new,
        message,
        474,
        true,
        " (must be 1-474 and multiple of 2)"@,
        1,
        byte_vars_from(old.variables@, message.sub_header.instance as int, u32_at(message.payload@, 0) as int),
        message.payload@.skip(4).map_values(|b: u8| seq![b]),
        r,
    )
}

impl CommandHandler for PluralByteVarHandler {
    open spec fn overflows(state: MockState, message: HsesRequestMessage) -> bool {
        plural_var_overflows(message, 474, true, 1)
    }

    fn handle(&self, message: &HsesRequestMessage, state: &mut MockState) -> (r: Result<Vec<u8>, ProtocolError>)
        ensures
            plural_byte_var_handled(*old(state), *final(state), *message, r),
    {
        let count = plural_var_count(message, 474, true, " (must be 1-474 and multiple of 2)")?;
        let start = message.sub_header.instance;
        let service = message.sub_header.service;
        if service == 0x33 {
            let values = state.get_multiple_byte_variables(start, count as usize);
            let mut response = Vec::new();
            push_u32_le(&mut response, count);
            push_all(&mut response, values.as_slice());
            assert(values@ =~= byte_vars_from(state.variables@, start as int, count as int));
            Ok(response)
        } else if service == 0x34 {
            if message.payload.len() != 4 + count as usize {
                return Err(ProtocolError::InvalidMessage("Invalid payload length".to_string()));
            }
            let values = vstd::slice::slice_subrange(message.payload.as_slice(), 4, message.payload.len());
            assert(values@ =~= message.payload@.skip(4));
            state.set_multiple_byte_variables(start, values);
            let mut response = Vec::new();
            push_u32_le(&mut response, count);
            Ok(response)
        } else {
            Err(ProtocolError::InvalidService)
        }
    }
}

/// The I variables a plural read answers with.
pub open spec fn int_vars_from(m: Map<u16, Vec<u8>>, start: int, count: int) -> Seq<i16> {
    Seq::new(count as nat, |i: int| int_var(m, start + i))
}

/// The values of 2 or 4 bytes each that a plural write carries after its count.
pub open spec fn payload_words(payload: Seq<u8>, count: int, width: int) -> Seq<Seq<u8>> {
    Seq::new(count as nat, |i: int| payload.subrange(4 + width * i, 4 + width * i + width))
}

/// Reads or writes plural I variables (command 0x303); counts are 1-237.
pub struct PluralIntegerVarHandler;

/// What `PluralIntegerVarHandler` does with a request.
pub open spec fn plural_integer_var_handled(old: MockState, new: MockState, message: HsesRequestMessage, r: Result<Vec<u8>, ProtocolError>) -> bool {
    plural_var_handled(
        old,
        new,
        message,
        237,
        false,
        " (must be 1-237)"@,
        2,
        i16s_bytes(int_vars_from(old.variables@, message.sub_header.instance as int, u32_at(message.payload@, 0) as int)),
        payload_words(message.payload@, u32_at(message.payload@, 0) as int, 2),
        r,
    )
}

impl CommandHandler for PluralIntegerVarHandler {
    open spec fn overflows(state: MockState, message: HsesRequestMessage) -> bool {
        plural_var_overflows(message, 237, false, 2)
    }

    fn handle(&self, message: &HsesRequestMessage, state: &mut MockState) -> (r: Result<Vec<u8>, ProtocolError>)
        ensures
            plural_integer_var_handled(*old(state), *final(state), *message, r),
    {
        let count = plural_var_count(message, 237, false, " (must be 1-237)")?;
        let start = message.sub_header.instance;
        let service = message.sub_header.service;
        if service == 0x33 {
            let values = state.get_multiple_integer_variables(start, count as usize);
            let mut response = Vec::new();
            push_u32_le(&mut response, count);
            let ghost head = response@;
            let mut i: usize = 0;
            while i < values.len()
                invariant
                    i <= values@.len(),
                    response@ == head + i16s_bytes(values@.take(i as int)),
                decreases values@.len() - i,
            {
                push_i16_le(&mut response, values[i]);
                i = i + 1;
                assert(values@.take(i as int).drop_last() =~= values@.take(i - 1));
                assert(response@ =~= head + i16s_bytes(values@.take(i as int)));
            }
            assert(values@.take(i as int) =~= values@);
            assert(values@ =~= int_vars_from(state.variables@, start as int, count as int));
            Ok(response)
        } else if service == 0x34 {
            if message.payload.len() != 4 + count as usize * 2 {
                return Err(
                    ProtocolError::InvalidMessage(
                        text_with_two_numbers(
                            "Invalid payload length: got ",
                            message.payload.len() as u64,
                            " bytes, expected ",
                            (4 + count as usize * 2) as u64,
                            "",
                        ),
                    ),
                );
            }
            let mut values: Vec<i16> = Vec::new();
            let mut i: usize = 0;
            while i < count as usize
                invariant
                    message.payload@.len() == 4 + count * 2,
                    count <= 237,
                    i <= count,
                    values@.len() == i,
                    forall|j: int| 0 <= j < i ==> #[trigger] le_i16(values@[j]) == message.payload@.subrange(4 + 2 * j, 4 + 2 * j + 2),
                decreases count - i,
            {
                let v = read_i16_le(message.payload.as_slice(), 4 + i * 2);
                proof {
                    crate::wire::lemma_i16_bytes_roundtrip_at(message.payload@, 4 + 2 * i);
                }
                values.push(v);
                i = i + 1;
            }
            assert(values@.map_values(|v: i16| le_i16(v)) =~= payload_words(message.payload@, count as int, 2));
            state.set_multiple_integer_variables(start, values.as_slice());
            let mut response = Vec::new();
            push_u32_le(&mut response, count);
            Ok(response)
        } else {
            Err(ProtocolError::InvalidService)
        }
    }
}

/// The D variables a plural read answers with.
pub open spec fn double_vars_from(m: Map<u16, Vec<u8>>, start: int, count: int) -> Seq<i32> {
    Seq::new(count as nat, |i: int| double_var(m, start + i))
}

/// Reads or writes plural D variables (command 0x304); counts are 1-118.
pub struct PluralDoubleVarHandler;

/// What `PluralDoubleVarHandler` does with a request.
pub open spec fn plural_double_var_handled(old: MockState, new: MockState, message: HsesRequestMessage, r: Result<Vec<u8>, ProtocolError>) -> bool {
    plural_var_handled(
        old,
        new,
        message,
        118,
        false,
        " (must be 1-118)"@,
        4,
        i32s_bytes(double_vars_from(old.variables@, message.sub_header.instance as int, u32_at(message.payload@, 0) as int)),
        payload_words(message.payload@, u32_at(message.payload@, 0) as int, 4),
        r,
    )
}

impl CommandHandler for PluralDoubleVarHandler {
    open spec fn overflows(state: MockState, message: HsesRequestMessage) -> bool {
        plural_var_overflows(message, 118, false, 4)
    }

    fn handle(&self, message: &HsesRequestMessage, state: &mut MockState) -> (r: Result<Vec<u8>, ProtocolError>)
        ensures
            plural_double_var_handled(*old(state), *final(state), *message, r),
    {
        let count = plural_var_count(message, 118, false, " (must be 1-118)")?;
        let start = message.sub_header.instance;
        let service = message.sub_header.service;
        if service == 0x33 {
            let values = state.get_multiple_double_variables(start, count as usize);
            let mut response = Vec::new();
            push_u32_le(&mut response, count);
            let ghost head = response@;
            let mut i: usize = 0;
            while i < values.len()
                invariant
                    i <= values@.len(),
                    response@ == head + i32s_bytes(values@.take(i as int)),
                decreases values@.len() - i,
            {
                push_i32_le(&mut response, values[i]);
                i = i + 1;
                assert(values@.take(i as int).drop_last() =~= values@.take(i - 1));
                assert(response@ =~= head + i32s_bytes(values@.take(i as int)));
            }
            assert(values@.take(i as int) =~= values@);
            assert(values@ =~= double_vars_from(state.variables@, start as int, count as int));
            Ok(response)
        } else if service == 0x34 {
            if message.payload.len() != 4 + count as usize * 4 {
                return Err(
                    ProtocolError::InvalidMessage(
                        text_with_two_numbers(
                            "Invalid payload length: got ",
                            message.payload.len() as u64,
                            " bytes, expected ",
                            (4 + count as usize * 4) as u64,
                            "",
                        ),
                    ),
                );
            }
            let mut values: Vec<i32> = Vec::new();
            let mut i: usize = 0;
            while i < count as usize
                invariant
                    message.payload@.len() == 4 + count * 4,
                    count <= 118,
                    i <= count,
                    values@.len() == i,
                    forall|j: int| 0 <= j < i ==> #[trigger] le_i32(values@[j]) == message.payload@.subrange(4 + 4 * j, 4 + 4 * j + 4),
                decreases count - i,
            {
                let v = read_i32_le(message.payload.as_slice(), 4 + i * 4);
                proof {
                    crate::wire::lemma_i32_bytes_roundtrip_at(message.payload@, 4 + 4 * i);
                }
                values.push(v);
                i = i + 1;
            }
            assert(values@.map_values(|v: i32| le_i32(v)) =~= payload_words(message.payload@, count as int, 4));
            state.set_multiple_double_variables(start, values.as_slice());
            let mut response = Vec::new();
            push_u32_le(&mut response, count);
            Ok(response)
        } else {
            Err(ProtocolError::InvalidService)
        }
    }
}

/// R variable `n` as stored: its first four bytes, or zeros when it has
/// fewer.
pub open spec fn real_var_word(m: Map<u16, Vec<u8>>, n: int) -> Seq<u8> {
    match var_at(m, n) {
        Some(b) => if b.len() >= 4 { b.take(4) } else { zeros(4) },
        None => zeros(4),
    }
}

/// The R variables a plural read answers with, four bytes each.
pub open spec fn real_vars_from(m: Map<u16, Vec<u8>>, start: int, count: int) -> Seq<u8> {
    flatten_map(Seq::new(count as nat, |i: int| start + i), |n: int| real_var_word(m, n))
}

/// Reads or writes plural R variables (command 0x305); counts are 1-118.
/// The values travel as their 4 bytes each, unchanged.
pub struct PluralRealVarHandler;

/// What `PluralRealVarHandler` does with a request.
pub open spec fn plural_real_var_handled(old: MockState, new: MockState, message: HsesRequestMessage, r: Result<Vec<u8>, ProtocolError>) -> bool {
    plural_var_handled(
        old,
        new,
        message,
        118,
        false,
        " (must be 1-118)"@,
        4,
        real_vars_from(old.variables@, message.sub_header.instance as int, u32_at(message.payload@, 0) as int),
        payload_words(message.payload@, u32_at(message.payload@, 0) as int, 4),
        r,
    )
}

impl CommandHandler for PluralRealVarHandler {
    open spec fn overflows(state: MockState, message: HsesRequestMessage) -> bool {
        plural_var_overflows(message, 118, false, 4)
    }

    fn handle(&self, message: &HsesRequestMessage, state: &mut MockState) -> (r: Result<Vec<u8>, ProtocolError>)
        ensures
            plural_real_var_handled(*old(state), *final(state), *message, r),
    {
        let count = plural_var_count(message, 118, false, " (must be 1-118)")?;
        let start = message.sub_header.instance;
        let service = message.sub_header.service;
        if service == 0x33 {
            let mut response = Vec::new();
            push_u32_le(&mut response, count);
            let ghost head = response@;
            let ghost nums = Seq::new(count as nat, |i: int| start + i);
            let ghost f = |n: int| real_var_word(state.variables@, n);
            let mut i: usize = 0;
            while i < count as usize
                invariant
                    start + count <= 0x1_0000,
                    i <= count,
                    nums == Seq::new(count as nat, |i: int| start + i),
                    f == (|n: int| real_var_word(state.variables@, n)),
                    response@ == head + flatten_map(nums.take(i as int), f),
                decreases count - i,
            {
                let n = start + i as u16;
                let mut word = Vec::new();
                match state.get_variable(n) {
                    Some(value) => {
                        if value.len() >= 4 {
                            word = copy_range(value.as_slice(), 0, 4);
                        } else {
                            word = zero_bytes(4);
                        }
                    },
                    None => {
                        word = zero_bytes(4);
                    },
                }
                assert(word@ == f(nums[i as int]));
                push_all(&mut response, word.as_slice());
                i = i + 1;
                assert(nums.take(i as int).drop_last() =~= nums.take(i - 1));
                assert(nums.take(i as int).last() == nums[i - 1]);
            }
            assert(nums.take(i as int) =~= nums);
            Ok(response)
        } else if service == 0x34 {
            if message.payload.len() != 4 + count as usize * 4 {
                return Err(
                    ProtocolError::InvalidMessage(
                        text_with_two_numbers(
                            "Invalid payload length: got ",
                            message.payload.len() as u64,
                            " bytes, expected ",
                            (4 + count as usize * 4) as u64,
                            "",
                        ),
                    ),
                );
            }
            let mut i: usize = 0;
            let ghost old_vars = state.variables@;
            let ghost words = payload_words(message.payload@, count as int, 4);
            while i < count as usize
                invariant
                    message.payload@.len() == 4 + count * 4,
                    count <= 118,
                    start + count <= 0x1_0000,
                    i <= count,
                    words == payload_words(message.payload@, count as int, 4),
                    *state == (MockState { variables: state.variables, ..*old(state) }),
                    old_vars == old(state).variables@,
                    vars_written(old_vars, state.variables@, start as int, words.take(i as int)),
                decreases count - i,
            {
                let word = copy_range(message.payload.as_slice(), 4 + i * 4, 8 + i * 4);
                let ghost prev = state.variables@;
                let ghost key = (start + i) as u16;
                let ghost ww = word@;
                state.set_variable(start + i as u16, word);
                proof {
                    crate::mock::state::lemma_vars_written_step(old_vars, prev, state.variables@, start as int,
                        words.take(i as int), key, state.variables@[key]);
                    assert(words.take(i + 1) =~= words.take(i as int).push(ww));
                }
                i = i + 1;
            }
            assert(words.take(i as int) =~= words);
            let mut response = Vec::new();
            push_u32_le(&mut response, count);
            Ok(response)
        } else {
            Err(ProtocolError::InvalidService)
        }
    }
}

} // verus!
