//! Handlers for single I/O signals (0x78), registers (0x79) and plural I/O
//! data (0x300).

use crate::commands::io::{io_category_of, IoCategory};
use crate::error::ProtocolError;
use crate::message::HsesRequestMessage;
use crate::mock::handlers::CommandHandler;
use crate::mock::state::{io_byte, io_range_refusal, io_state_of, io_written, register_of, MockState};
use crate::wire::{i16_at, le_i16, le_u32, push_all, push_i16_le, push_u32_le, read_i16_le, read_u32_le, u32_at};
use vstd::prelude::*;

verus! {

/// Reads or writes one I/O signal (command 0x78). An I/O number outside
/// every category is an invalid command. Service 0x0e answers 1 or 0 in
/// the first of four bytes;
/// service 0x10 sets the signal on when the first payload byte is not zero
/// (an empty payload changes nothing) and answers nothing; any other service
/// is invalid.
pub struct IoHandler;

/// What `IoHandler` does with a request.
pub open spec fn io_handled(old: MockState, new: MockState, message: HsesRequestMessage, r: Result<Vec<u8>, ProtocolError>) -> bool {
    let n = message.sub_header.instance;
    let payload = message.payload@;
    if io_category_of(n) is None {
        (r matches Err(ProtocolError::InvalidCommand)) && new == old
    } else if message.sub_header.service == 0x0e {
        let bit: u8 = if io_state_of(old.io_states@, n as int) {
            1
        } else {
            0
        };
        new == old && (r matches Ok(v) && v@ == seq![bit, 0u8, 0u8, 0u8])
    } else if message.sub_header.service == 0x10 {
        &&& r matches Ok(v) && v@.len() == 0
        &&& payload.len() > 0 ==> new == (MockState { io_states: new.io_states, ..old })
            && new.io_states@ == old.io_states@.insert(n, payload[0] != 0)
        &&& payload.len() == 0 ==> new == old
    } else {
        (r matches Err(ProtocolError::InvalidService)) && new == old
    }
}

impl CommandHandler for IoHandler {
    fn handle(&self, message: &HsesRequestMessage, state: &mut MockState) -> (r: Result<Vec<u8>, ProtocolError>)
        ensures
            io_handled(*old(state), *final(state), *message, r),
    {
        let io_number = message.sub_header.instance;
        if !IoCategory::is_valid_io_number(io_number) {
            return Err(ProtocolError::InvalidCommand);
        }
        let service = message.sub_header.service;
        if service == 0x0e {
            let value: u8 = if state.get_io_state(io_number) {
                1
            } else {
                0
            };
            let mut v = Vec::new();
            v.push(value);
            v.push(0);
            v.push(0);
            v.push(0);
            assert(v@ =~= seq![value, 0u8, 0u8, 0u8]);
            Ok(v)
        } else if service == 0x10 {
            if message.payload.len() > 0 {
                state.set_io_state(io_number, message.payload[0] != 0);
            }
            Ok(Vec::new())
        } else {
            Err(ProtocolError::InvalidService)
        }
    }
}

/// Reads or writes one register (command 0x79). A register above 999 is an
/// invalid command. Service 0x0e answers the value and two zero bytes;
/// service 0x10 sets the value of the first two payload bytes (a shorter
/// payload changes nothing) and answers nothing; any other service is
/// invalid.
pub struct RegisterHandler;

/// What `RegisterHandler` does with a request.
pub open spec fn register_handled(old: MockState, new: MockState, message: HsesRequestMessage, r: Result<Vec<u8>, ProtocolError>) -> bool {
    let n = message.sub_header.instance;
    let payload = message.payload@;
    if n > 999 {
        (r matches Err(ProtocolError::InvalidCommand)) && new == old
    } else if message.sub_header.service == 0x0e {
        let value = register_of(old.registers@, n as int);
        new == old && (r matches Ok(v) && v@ == le_i16(value) + seq![0u8, 0u8])
    } else if message.sub_header.service == 0x10 {
        &&& r matches Ok(v) && v@.len() == 0
        &&& payload.len() >= 2 ==> new == (MockState { registers: new.registers, ..old })
            && new.registers@ == old.registers@.insert(n, i16_at(payload, 0))
        &&& payload.len() < 2 ==> new == old
    } else {
        (r matches Err(ProtocolError::InvalidService)) && new == old
    }
}

impl CommandHandler for RegisterHandler {
    fn handle(&self, message: &HsesRequestMessage, state: &mut MockState) -> (r: Result<Vec<u8>, ProtocolError>)
        ensures
            register_handled(*old(state), *final(state), *message, r),
    {
        let reg_number = message.sub_header.instance;
        if reg_number > 999 {
            return Err(ProtocolError::InvalidCommand);
        }
        let service = message.sub_header.service;
        if service == 0x0e {
            let value = state.get_register(reg_number);
            let mut v = Vec::new();
            push_i16_le(&mut v, value);
            v.push(0);
            v.push(0);
            assert(v@ =~= le_i16(value) + seq![0u8, 0u8]);
            Ok(v)
        } else if service == 0x10 {
            if message.payload.len() >= 2 {
                let value = read_i16_le(message.payload.as_slice(), 0);
                state.set_register(reg_number, value);
            }
            Ok(Vec::new())
        } else {
            Err(ProtocolError::InvalidService)
        }
    }
}

/// Whether a count of plural I/O bytes is allowed: 1-474 and even.
pub open spec fn plural_io_count_ok(count: u32) -> bool {
    1 <= count <= 474 && count % 2 == 0
}

/// The answer of plural I/O request on the checks that come before the
/// service: an attribute other than 0 is invalid, an I/O number outside
/// every category an invalid command, a payload under 4 bytes or a count
/// that is not allowed an invalid message.
pub open spec fn plural_io_checks_pass(message: HsesRequestMessage) -> bool {
    &&& message.sub_header.attribute == 0
    &&& io_category_of(message.sub_header.instance) is Some
    &&& message.payload@.len() >= 4
    &&& plural_io_count_ok(u32_at(message.payload@, 0))
}

/// The I/O bytes from `start` on that a plural read answers with.
pub open spec fn io_bytes_from(m: Map<u16, bool>, start: int, count: int) -> Seq<u8> {
    Seq::new(count as nat, |i: int| io_byte(m, start + 8 * i))
}

/// Reads or writes plural I/O data (command 0x300); the first 4 payload
/// bytes hold the count of I/O bytes (1-474, even).
///
/// A read (service 0x33) needs the last I/O number of the range, start +
/// count - 1, to lie in some category too, and the signals it reads to stay
/// within I/O number 65535; it answers the count and the I/O bytes. A write
/// (service 0x34) needs exactly count data bytes after the count (else an
/// invalid message), a start among the network inputs 2701-2956 and all
/// `8 count` signals to stay within them (else an invalid command); it sets
/// the signals and answers the count. Any other service is invalid.
pub struct PluralIoHandler;

/// The message that refuses a plural I/O read of `count` bytes from
/// `start`: a last I/O number past 65535, one outside every category, or
/// signals past I/O number 65535.
pub open spec fn plural_io_read_refusal(start: int, count: int) -> Seq<char> {
    if start + count - 1 > u16::MAX {
        "I/O range overflow"@
    } else if io_category_of((start + count - 1) as u16) is None {
        "I/O range exceeds category bounds"@
    } else {
        io_range_refusal(start as u16)
    }
}

/// What `PluralIoHandler` does with a request.
pub open spec fn plural_io_handled(old: MockState, new: MockState, message: HsesRequestMessage, r: Result<Vec<u8>, ProtocolError>) -> bool {
    let start = message.sub_header.instance as int;
    let payload = message.payload@;
    let count = u32_at(payload, 0) as int;
    let known_start = io_category_of(message.sub_header.instance) is Some;
    &&& message.sub_header.attribute != 0 ==> (r matches Err(ProtocolError::InvalidAttribute))
    &&& message.sub_header.attribute == 0 && !known_start ==> (r matches Err(ProtocolError::InvalidCommand))
    &&& message.sub_header.attribute == 0 && known_start && !(payload.len() >= 4 && plural_io_count_ok(
        count as u32,
    )) ==> (r matches Err(ProtocolError::InvalidMessage(m)) && m@ == (if payload.len() < 4 {
        "Payload too short"@
    } else {
        "Invalid count"@
    }))
    &&& r is Err ==> new == old
    &&& plural_io_checks_pass(message) ==> {
        if message.sub_header.service == 0x33 {
            let last_known = io_category_of((start + count - 1) as u16) is Some && start + count - 1 <= u16::MAX;
            if last_known && start + 8 * count <= 0x1_0000 {
                let bytes = io_bytes_from(old.io_states@, start, count);
                new == old && (r matches Ok(v) && v@ == le_u32(count as u32) + bytes)
            } else {
                r matches Err(ProtocolError::InvalidMessage(m)) && m@ == plural_io_read_refusal(start, count)
            }
        } else if message.sub_header.service == 0x34 {
            if payload.len() != 4 + count {
                r matches Err(ProtocolError::InvalidMessage(m)) && m@ == "Invalid payload length"@
            } else if !(2701 <= start <= 2956) || start + 8 * count - 1 > 2956 {
                r matches Err(ProtocolError::InvalidCommand)
            } else {
                &&& r matches Ok(v) && v@ == le_u32(count as u32)
                &&& new == (MockState { io_states: new.io_states, ..old })
                &&& io_written(old.io_states@, new.io_states@, start, start + 8 * count, payload.skip(4))
            }
        } else {
            r matches Err(ProtocolError::InvalidService)
        }
    }
}

impl CommandHandler for PluralIoHandler {
    fn handle(&self, message: &HsesRequestMessage, state: &mut MockState) -> (r: Result<Vec<u8>, ProtocolError>)
        ensures
            plural_io_handled(*old(state), *final(state), *message, r),
    {
        let start_io_number = message.sub_header.instance;
        let service = message.sub_header.service;
        if message.sub_header.attribute != 0 {
            return Err(ProtocolError::InvalidAttribute);
        }
        if !IoCategory::is_valid_io_number(start_io_number) {
            return Err(ProtocolError::InvalidCommand);
        }
        if message.payload.len() < 4 {
            return Err(ProtocolError::InvalidMessage("Payload too short".to_string()));
        }
        let count = read_u32_le(message.payload.as_slice(), 0);
        if count == 0 || count > 474 || count % 2 != 0 {
            return Err(ProtocolError::InvalidMessage("Invalid count".to_string()));
        }
        if service == 0x33 {
            let count_u16 = count as u16;
            if start_io_number as u32 + (count_u16 - 1) as u32 > 0xffff {
                return Err(ProtocolError::InvalidMessage("I/O range overflow".to_string()));
            }
            let end_io_number = start_io_number + (count_u16 - 1);
            if !IoCategory::is_valid_io_number(end_io_number) {
                return Err(ProtocolError::InvalidMessage("I/O range exceeds category bounds".to_string()));
            }
            let io_data = match state.get_multiple_io_states(start_io_number, count as usize) {
                Ok(d) => d,
                Err(e) => {
                    return Err(ProtocolError::InvalidMessage(e));
                },
            };
            let mut response = Vec::new();
            push_u32_le(&mut response, count);
            push_all(&mut response, io_data.as_slice());
            assert(io_data@ =~= io_bytes_from(state.io_states@, start_io_number as int, count as int));
            Ok(response)
        } else if service == 0x34 {
            if message.payload.len() != 4 + count as usize {
                return Err(ProtocolError::InvalidMessage("Invalid payload length".to_string()));
            }
            if !(2701 <= start_io_number && start_io_number <= 2956) {
                return Err(ProtocolError::InvalidCommand);
            }
            let io_data = vstd::slice::slice_subrange(message.payload.as_slice(), 4, message.payload.len());
            let end_io_number = start_io_number + (count as u16) * 8 - 1;
            if end_io_number > 2956 {
                return Err(ProtocolError::InvalidCommand);
            }
            assert(io_data@ =~= message.payload@.skip(4));
            match state.set_multiple_io_states(start_io_number, io_data) {
                Ok(()) => {},
                Err(e) => {
                    return Err(ProtocolError::InvalidMessage(e));
                },
            }
            let mut response = Vec::new();
            push_u32_le(&mut response, count);
            Ok(response)
        } else {
            Err(ProtocolError::InvalidService)
        }
    }
}

} // verus!
