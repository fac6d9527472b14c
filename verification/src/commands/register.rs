//! Register commands: single register (0x79) and plural register data (0x301).

use crate::commands::command_trait::Command;
use crate::encoding::TextEncoding;
use crate::error::{text_with_number, text_with_two_numbers, with_number, with_two_numbers, ProtocolError};
use crate::payload::payload_trait::HsesPayload;
use crate::payload::variable::i16s_bytes;
use crate::wire::{le_i16, le_u32, push_all, push_i16_le, push_u32_le};
use vstd::prelude::*;

verus! {

/// Reads one register (command 0x79).
#[derive(Debug, Clone)]
pub struct ReadRegister {
    pub register_number: u16,
}

impl ReadRegister {
    /// A read of register `register_number`.
    pub fn new(register_number: u16) -> (r: Self)
        ensures
            r.register_number == register_number,
    {
        Self { register_number }
    }
}

impl Command for ReadRegister {
    type Response = i16;

    open spec fn command_id_spec() -> u16 {
        0x79
    }

    open spec fn instance_spec(&self) -> u16 {
        self.register_number
    }

    open spec fn attribute_spec(&self) -> u8 {
        1
    }

    open spec fn service_spec(&self) -> u8 {
        0x0e
    }

    open spec fn serializable(&self) -> bool {
        true
    }

    open spec fn payload_spec(&self) -> Option<Seq<u8>> {
        Some(Seq::empty())
    }

    fn command_id() -> (r: u16) {
        0x79
    }

    fn serialize(&self) -> (r: Result<Vec<u8>, ProtocolError>) {
        Ok(Vec::new())
    }

    fn instance(&self) -> (r: u16) {
        self.register_number
    }

    fn attribute(&self) -> (r: u8) {
        1
    }

    fn service(&self) -> (r: u8) {
        0x0e
    }
}

/// Writes one register (command 0x79).
#[derive(Debug, Clone)]
pub struct WriteRegister {
    pub register_number: u16,
    pub value: i16,
}

impl WriteRegister {
    /// A write of `value` to register `register_number`.
    pub fn new(register_number: u16, value: i16) -> (r: Self)
        ensures
            r.register_number == register_number,
            r.value == value,
    {
        Self { register_number, value }
    }
}

impl Command for WriteRegister {
    type Response = ();

    open spec fn command_id_spec() -> u16 {
        0x79
    }

    open spec fn instance_spec(&self) -> u16 {
        self.register_number
    }

    open spec fn attribute_spec(&self) -> u8 {
        1
    }

    open spec fn service_spec(&self) -> u8 {
        0x10
    }

    open spec fn serializable(&self) -> bool {
        true
    }

    /// The value as a 16-bit integer.
    open spec fn payload_spec(&self) -> Option<Seq<u8>> {
        Some(le_i16(self.value))
    }

    fn command_id() -> (r: u16) {
        0x79
    }

    fn serialize(&self) -> (r: Result<Vec<u8>, ProtocolError>) {
        let mut v = Vec::new();
        push_i16_le(&mut v, self.value);
        assert(v@ =~= le_i16(self.value));
        Ok(v)
    }

    fn instance(&self) -> (r: u16) {
        self.register_number
    }

    fn attribute(&self) -> (r: u8) {
        1
    }

    fn service(&self) -> (r: u8) {
        0x10
    }
}

/// The last register number (999).
pub open spec fn max_register() -> int {
    999
}

/// The last writable register number (559).
pub open spec fn max_writable_register() -> int {
    559
}

/// The largest number of registers in one plural request (237).
pub open spec fn max_register_count() -> int {
    237
}

/// Reads `count` registers from `start_register_number` on (command 0x301).
#[derive(Debug, Clone)]
pub struct ReadMultipleRegisters {
    pub start_register_number: u16,
    pub count: u32,
}

impl ReadMultipleRegisters {
    /// A plural read. A start above 999 is an invalid instance; a count
    /// outside 1-237, or a range that runs past register 999, an invalid
    /// message.
    pub fn new(start_register_number: u16, count: u32) -> (r: Result<Self, ProtocolError>)
        ensures
            start_register_number > max_register() ==> (r matches Err(ProtocolError::InvalidInstance(m))
                && m@ == with_number(
                "Invalid register number: "@,
                start_register_number as nat,
                " (valid range: 0-999)"@,
            )),
            start_register_number <= max_register() && !(1 <= count <= max_register_count()) ==> (r matches Err(
                ProtocolError::InvalidMessage(m),
            ) && m@ == with_number("Invalid count: "@, count as nat, " (must be 1-237)"@)),
            start_register_number <= max_register() && 1 <= count <= max_register_count() && start_register_number
                + count - 1 > max_register() ==> (r matches Err(ProtocolError::InvalidMessage(m)) && m@
                == with_two_numbers(
                "Register range exceeds maximum: "@,
                start_register_number as nat,
                "-"@,
                (start_register_number + count - 1) as nat,
                " (max 999)"@,
            )),
            start_register_number <= max_register() && 1 <= count <= max_register_count()
                && start_register_number + count - 1 <= max_register() ==> (r matches Ok(c)
                && c.start_register_number == start_register_number && c.count == count),
    {
        if start_register_number > 999 {
            return Err(
                ProtocolError::InvalidInstance(
                    text_with_number(
                        "Invalid register number: ",
                        start_register_number as u64,
                        " (valid range: 0-999)",
                    ),
                ),
            );
        }
        if count == 0 || count > 237 {
            return Err(
                ProtocolError::InvalidMessage(text_with_number("Invalid count: ", count as u64, " (must be 1-237)")),
            );
        }
        let end_register = start_register_number as u32 + count - 1;
        if end_register > 999 {
            return Err(
                ProtocolError::InvalidMessage(
                    text_with_two_numbers(
                        "Register range exceeds maximum: ",
                        start_register_number as u64,
                        "-",
                        end_register as u64,
                        " (max 999)",
                    ),
                ),
            );
        }
        Ok(Self { start_register_number, count })
    }
}

impl Command for ReadMultipleRegisters {
    type Response = Vec<i16>;

    open spec fn command_id_spec() -> u16 {
        0x301
    }

    open spec fn instance_spec(&self) -> u16 {
        self.start_register_number
    }

    open spec fn attribute_spec(&self) -> u8 {
        0
    }

    open spec fn service_spec(&self) -> u8 {
        0x33
    }

    open spec fn serializable(&self) -> bool {
        true
    }

    /// The count as a 32-bit integer.
    open spec fn payload_spec(&self) -> Option<Seq<u8>> {
        Some(le_u32(self.count))
    }

    fn command_id() -> (r: u16) {
        0x301
    }

    fn serialize(&self) -> (r: Result<Vec<u8>, ProtocolError>) {
        let mut v = Vec::new();
        push_u32_le(&mut v, self.count);
        assert(v@ =~= le_u32(self.count));
        Ok(v)
    }

    fn instance(&self) -> (r: u16) {
        self.start_register_number
    }

    fn attribute(&self) -> (r: u8) {
        0
    }

    fn service(&self) -> (r: u8) {
        0x33
    }
}

/// Writes registers from `start_register_number` on (command 0x301).
#[derive(Debug, Clone)]
pub struct WriteMultipleRegisters {
    pub start_register_number: u16,
    pub values: Vec<i16>,
}

impl WriteMultipleRegisters {
    /// A plural write. A number of values outside 1-237 is an invalid
    /// message; then a start above 559 an invalid instance; then a range
    /// that runs past register 559 an invalid message.
    pub fn new(start_register_number: u16, values: Vec<i16>) -> (r: Result<Self, ProtocolError>)
        ensures
            !(1 <= values@.len() <= max_register_count()) ==> (r matches Err(ProtocolError::InvalidMessage(m))
                && m@ == with_number("Invalid count: "@, values@.len(), " (must be 1-237)"@)),
            1 <= values@.len() <= max_register_count() && start_register_number > max_writable_register()
                ==> (r matches Err(ProtocolError::InvalidInstance(m)) && m@ == with_number(
                "Register "@,
                start_register_number as nat,
                " is not writable (writable range: 0-559)"@,
            )),
            1 <= values@.len() <= max_register_count() && start_register_number <= max_writable_register()
                && start_register_number + values@.len() - 1 > max_writable_register() ==> (r matches Err(
                ProtocolError::InvalidMessage(m),
            ) && m@ == with_two_numbers(
                "Register range exceeds writable limit: "@,
                start_register_number as nat,
                "-"@,
                (start_register_number + values@.len() - 1) as nat,
                " (max 559)"@,
            )),
            1 <= values@.len() <= max_register_count() && start_register_number + values@.len() - 1
                <= max_writable_register() ==> (r matches Ok(c) && c.start_register_number
                == start_register_number && c.values@ == values@),
    {
        let count = values.len();
        if count == 0 || count > 237 {
            return Err(
                ProtocolError::InvalidMessage(text_with_number("Invalid count: ", count as u64, " (must be 1-237)")),
            );
        }
        if start_register_number > 559 {
            return Err(
                ProtocolError::InvalidInstance(
                    text_with_number(
                        "Register ",
                        start_register_number as u64,
                        " is not writable (writable range: 0-559)",
                    ),
                ),
            );
        }
        let end_register = start_register_number as u32 + count as u32 - 1;
        if end_register > 559 {
            return Err(
                ProtocolError::InvalidMessage(
                    text_with_two_numbers(
                        "Register range exceeds writable limit: ",
                        start_register_number as u64,
                        "-",
                        end_register as u64,
                        " (max 559)",
                    ),
                ),
            );
        }
        Ok(Self { start_register_number, values })
    }
}

impl Command for WriteMultipleRegisters {
    type Response = ();

    open spec fn command_id_spec() -> u16 {
        0x301
    }

    open spec fn instance_spec(&self) -> u16 {
        self.start_register_number
    }

    open spec fn attribute_spec(&self) -> u8 {
        0
    }

    open spec fn service_spec(&self) -> u8 {
        0x34
    }

    open spec fn serializable(&self) -> bool {
        true
    }

    /// The number of values as a 32-bit integer, then each value as a 16-bit
    /// integer; refused when the number does not fit in 32 bits.
    open spec fn payload_spec(&self) -> Option<Seq<u8>> {
        if self.values@.len() <= u32::MAX {
            Some(le_u32(self.values@.len() as u32) + i16s_bytes(self.values@))
        } else {
            None
        }
    }

    fn command_id() -> (r: u16) {
        0x301
    }

    fn serialize(&self) -> (r: Result<Vec<u8>, ProtocolError>)
        ensures
            r matches Err(e) ==> (e matches ProtocolError::InvalidMessage(m) && m@ == "Values count too large"@),
    {
        if self.values.len() as u64 > u32::MAX as u64 {
            return Err(ProtocolError::InvalidMessage("Values count too large".to_string()));
        }
        let count = self.values.len() as u32;
        let mut payload = Vec::new();
        push_u32_le(&mut payload, count);
        let body = match self.values.serialize(TextEncoding::Utf8) {
            Ok(b) => b,
            Err(e) => {
                return Err(e);
            },
        };
        push_all(&mut payload, body.as_slice());
        assert(payload@ =~= le_u32(count) + i16s_bytes(self.values@));
        Ok(payload)
    }

    fn instance(&self) -> (r: u16) {
        self.start_register_number
    }

    fn attribute(&self) -> (r: u8) {
        0
    }

    fn service(&self) -> (r: u8) {
        0x34
    }
}

} // verus!
