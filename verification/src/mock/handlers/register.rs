//! Handlers for single registers (0x79) and plural register data (0x301).

use crate::error::{text_with_number, text_with_two_numbers, with_number, with_two_numbers, ProtocolError};
use crate::message::HsesRequestMessage;
use crate::mock::handlers::CommandHandler;
use crate::mock::state::{register_of, registers_written, MockState};
use crate::payload::variable::i16s_bytes;
use crate::wire::{i16_at, le_i16, le_u32, push_i16_le, push_u32_le, read_i16_le, read_u32_le, u32_at};
use vstd::prelude::*;

verus! {

/// Reads or writes one register (command 0x79). A register above 999 is an
/// invalid message. Service 0x0e answers the value; service 0x10 refuses a
/// register above 559 as an invalid command, else sets the value of the
/// first two payload bytes (a shorter payload changes nothing) and answers
/// nothing; any other service is invalid.
pub struct RegisterHandler;

/// What `RegisterHandler` does with a request.
pub open spec fn register_handled(old: MockState, new: MockState, message: HsesRequestMessage, r: Result<Vec<u8>, ProtocolError>) -> bool {
    let n = message.sub_header.instance;
    let payload = message.payload@;
    if n > 999 {
        (r matches Err(ProtocolError::InvalidMessage(m)) && m@ == with_number(
            "Invalid register number: "@,
            n as nat,
            " (must be 0-999)"@,
        )) && new == old
    } else if message.sub_header.service == 0x0e {
        let value = register_of(old.registers@, n as int);
        new == old && (r matches Ok(v) && v@ == le_i16(value))
    } else if message.sub_header.service == 0x10 {
        if n > 559 {
            (r matches Err(ProtocolError::InvalidCommand)) && new == old
        } else {
            &&& r matches Ok(v) && v@.len() == 0
            &&& payload.len() >= 2 ==> new == (MockState { registers: new.registers, ..old })
                && new.registers@ == old.registers@.insert(n, i16_at(payload, 0))
            &&& payload.len() < 2 ==> new == old
        }
    } else {
        (r matches Err(ProtocolError::InvalidService)) && new == old
    }
}

impl CommandHandler for RegisterHandler {
    fn handle(&self, message: &HsesRequestMessage, state: &mut MockState) -> (r: Result<Vec<u8>, ProtocolError>)
        ensures
            register_handled(*old(state), *final(state), *message, r),
    {
        let reg_number = message.sub_header.instance;
        if reg_number > 999 {
            return Err(
                ProtocolError::InvalidMessage(
                    text_with_number("Invalid register number: ", reg_number as u64, " (must be 0-999)"),
                ),
            );
        }
        let service = message.sub_header.service;
        if service == 0x0e {
            let value = state.get_register(reg_number);
            let mut v = Vec::new();
            push_i16_le(&mut v, value);
            Ok(v)
        } else if service == 0x10 {
            if reg_number > 559 {
                return Err(ProtocolError::InvalidCommand);
            }
            if message.payload.len() >= 2 {
                let value = read_i16_le(message.payload.as_slice(), 0);
                state.set_register(reg_number, value);
            }
            Ok(Vec::new())
        } else {
            Err(ProtocolError::InvalidService)
        }
    }
}

/// The values of registers `start` on.
pub open spec fn registers_from(m: Map<u16, i16>, start: int, count: int) -> Seq<i16> {
    Seq::new(count as nat, |i: int| register_of(m, start + i))
}

/// The values a plural register write carries after its count.
pub open spec fn payload_i16s(payload: Seq<u8>, count: int) -> Seq<i16> {
    Seq::new(count as nat, |i: int| i16_at(payload, 4 + 2 * i))
}

/// Reads or writes plural register data (command 0x301); the first 4
/// payload bytes hold the count. An attribute other than 0 is invalid, a
/// start above 999 an invalid command; a payload under 4 bytes, a count
/// outside 1-237 or a range past register 999 an invalid message.
///
/// A read (service 0x33) answers the count and the values. A write
/// (service 0x34) needs exactly 2 bytes per value after the count (else an
/// invalid message) and the whole range within 0-559 (else an invalid
/// command); it sets the registers and answers the count. Any other service
/// is invalid.
pub struct PluralRegisterHandler;

/// The message that refuses a plural register request from `start`: a
/// payload too short for the count, a count outside 1-237, or a range past
/// register 999.
pub open spec fn plural_register_refusal(start: int, payload: Seq<u8>) -> Seq<char> {
    let count = u32_at(payload, 0) as int;
    if payload.len() < 4 {
        "Payload too short"@
    } else if !(1 <= count <= 237) {
        with_number("Invalid count: "@, count as nat, " (must be 1-237)"@)
    } else {
        with_two_numbers("Register range exceeds maximum: "@, start as nat, "-"@, (start + count - 1) as nat, " (max 999)"@)
    }
}

/// What `PluralRegisterHandler` does with a request.
pub open spec fn plural_register_handled(old: MockState, new: MockState, message: HsesRequestMessage, r: Result<Vec<u8>, ProtocolError>) -> bool {
    let start = message.sub_header.instance as int;
    let payload = message.payload@;
    let count = u32_at(payload, 0) as int;
    let checks_pass = payload.len() >= 4 && 1 <= count <= 237 && start + count - 1 <= 999;
    &&& message.sub_header.attribute != 0 ==> (r matches Err(ProtocolError::InvalidAttribute))
    &&& message.sub_header.attribute == 0 && start > 999 ==> (r matches Err(ProtocolError::InvalidCommand))
    &&& message.sub_header.attribute == 0 && start <= 999 && !checks_pass ==> (r matches Err(
        ProtocolError::InvalidMessage(m),
    ) && m@ == plural_register_refusal(start, payload))
    &&& r is Err ==> new == old
    &&& message.sub_header.attribute == 0 && start <= 999 && checks_pass ==> {
        if message.sub_header.service == 0x33 {
            let values = registers_from(old.registers@, start, count);
            new == old && (r matches Ok(v) && v@ == le_u32(count as u32) + i16s_bytes(values))
        } else if message.sub_header.service == 0x34 {
            if payload.len() != 4 + 2 * count {
                r matches Err(ProtocolError::InvalidMessage(m)) && m@ == "Invalid payload length"@
            } else if start + count - 1 > 559 {
                r matches Err(ProtocolError::InvalidCommand)
            } else {
                &&& r matches Ok(v) && v@ == le_u32(count as u32)
                &&& new == (MockState { registers: new.registers, ..old })
                &&& registers_written(old.registers@, new.registers@, start, count, payload_i16s(payload, count))
            }
        } else {
            r matches Err(ProtocolError::InvalidService)
        }
    }
}

impl CommandHandler for PluralRegisterHandler {
    fn handle(&self, message: &HsesRequestMessage, state: &mut MockState) -> (r: Result<Vec<u8>, ProtocolError>)
        ensures
            plural_register_handled(*old(state), *final(state), *message, r),
    {
        let start_register = message.sub_header.instance;
        let service = message.sub_header.service;
        if message.sub_header.attribute != 0 {
            return Err(ProtocolError::InvalidAttribute);
        }
        if start_register > 999 {
            return Err(ProtocolError::InvalidCommand);
        }
        if message.payload.len() < 4 {
            return Err(ProtocolError::InvalidMessage("Payload too short".to_string()));
        }
        let count = read_u32_le(message.payload.as_slice(), 0);
        if count == 0 || count > 237 {
            return Err(
                ProtocolError::InvalidMessage(text_with_number("Invalid count: ", count as u64, " (must be 1-237)")),
            );
        }
        let end_register = start_register as u32 + count - 1;
        if end_register > 999 {
            return Err(
                ProtocolError::InvalidMessage(
                    text_with_two_numbers(
                        "Register range exceeds maximum: ",
                        start_register as u64,
                        "-",
                        end_register as u64,
                        " (max 999)",
                    ),
                ),
            );
        }
        if service == 0x33 {
            let values = state.get_multiple_registers(start_register, count as usize);
            let mut response = Vec::new();
            push_u32_le(&mut response, count);
            let ghost head = response@;
            let mut i: usize = 0;
            while i < values.len()
                invariant
                    i <= values@.len(),
                    response@ == head + i16s_bytes(values@.take(i as int)),
                decreases values@.len() - i,
            {
                push_i16_le(&mut response, values[i]);
                i = i + 1;
                assert(values@.take(i as int).drop_last() =~= values@.take(i - 1));
                assert(response@ =~= head + i16s_bytes(values@.take(i as int)));
            }
            assert(values@.take(i as int) =~= values@);
            assert(values@ =~= registers_from(state.registers@, start_register as int, count as int));
            Ok(response)
        } else if service == 0x34 {
            if message.payload.len() != 4 + count as usize * 2 {
                return Err(ProtocolError::InvalidMessage("Invalid payload length".to_string()));
            }
            if start_register > 559 || end_register > 559 {
                return Err(ProtocolError::InvalidCommand);
            }
            let mut values: Vec<i16> = Vec::new();
            let mut i: usize = 0;
            while i < count as usize
                invariant
                    message.payload@.len() == 4 + count * 2,
                    count <= 237,
                    i <= count,
                    values@ == payload_i16s(message.payload@, i as int),
                decreases count - i,
            {
                values.push(read_i16_le(message.payload.as_slice(), 4 + i * 2));
                i = i + 1;
                assert(values@ =~= payload_i16s(message.payload@, i as int));
            }
            state.set_multiple_registers(start_register, values.as_slice());
            let mut response = Vec::new();
            push_u32_le(&mut response, count);
            Ok(response)
        } else {
            Err(ProtocolError::InvalidService)
        }
    }
}

} // verus!
