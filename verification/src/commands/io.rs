//! I/O commands: single I/O (0x78) and plural I/O data (0x300).

use crate::commands::command_trait::Command;
use crate::error::{text_with_number, with_number, ProtocolError};
use crate::wire::{le_u32, push_all, push_u32_le};
use vstd::prelude::*;

verus! {

/// The I/O signal categories and their number ranges.
#[derive(Debug, Clone, Copy, PartialEq, Eq, Structural)]
pub enum IoCategory {
    /// Robot user input (1-512)
    RobotUserInput,
    /// Robot user output (1001-1512)
    RobotUserOutput,
    /// External input (2001-2128)
    ExternalInput,
    /// Network input (2701-2956)
    NetworkInput,
    /// External output (3001-3128)
    ExternalOutput,
    /// Network output (3701-3956)
    NetworkOutput,
    /// Robot system input (4001-4256)
    RobotSystemInput,
    /// Robot system output (5001-5512)
    RobotSystemOutput,
    /// Interface panel input (6001-6064)
    InterfacePanelInput,
    /// Auxiliary relay (7001-7999)
    AuxiliaryRelay,
    /// Robot control status signal (8001-8512)
    RobotControlStatusSignal,
    /// Pseudo input (8701-8720)
    PseudoInput,
}

/// The first and last I/O number of a category.
pub open spec fn io_range(c: IoCategory) -> (u16, u16) {
    match c {
        IoCategory::RobotUserInput => (1, 512),
        IoCategory::RobotUserOutput => (1001, 1512),
        IoCategory::ExternalInput => (2001, 2128),
        IoCategory::NetworkInput => (2701, 2956),
        IoCategory::ExternalOutput => (3001, 3128),
        IoCategory::NetworkOutput => (3701, 3956),
        IoCategory::RobotSystemInput => (4001, 4256),
        IoCategory::RobotSystemOutput => (5001, 5512),
        IoCategory::InterfacePanelInput => (6001, 6064),
        IoCategory::AuxiliaryRelay => (7001, 7999),
        IoCategory::RobotControlStatusSignal => (8001, 8512),
        IoCategory::PseudoInput => (8701, 8720),
    }
}

/// Whether `n` lies in the range of `c`.
pub open spec fn in_io_range(n: u16, c: IoCategory) -> bool {
    io_range(c).0 <= n <= io_range(c).1
}

/// The category whose range holds `n`, if any.
pub open spec fn io_category_of(n: u16) -> Option<IoCategory> {
    if in_io_range(n, IoCategory::RobotUserInput) {
        Some(IoCategory::RobotUserInput)
    } else if in_io_range(n, IoCategory::RobotUserOutput) {
        Some(IoCategory::RobotUserOutput)
    } else if in_io_range(n, IoCategory::ExternalInput) {
        Some(IoCategory::ExternalInput)
    } else if in_io_range(n, IoCategory::NetworkInput) {
        Some(IoCategory::NetworkInput)
    } else if in_io_range(n, IoCategory::ExternalOutput) {
        Some(IoCategory::ExternalOutput)
    } else if in_io_range(n, IoCategory::NetworkOutput) {
        Some(IoCategory::NetworkOutput)
    } else if in_io_range(n, IoCategory::RobotSystemInput) {
        Some(IoCategory::RobotSystemInput)
    } else if in_io_range(n, IoCategory::RobotSystemOutput) {
        Some(IoCategory::RobotSystemOutput)
    } else if in_io_range(n, IoCategory::InterfacePanelInput) {
        Some(IoCategory::InterfacePanelInput)
    } else if in_io_range(n, IoCategory::AuxiliaryRelay) {
        Some(IoCategory::AuxiliaryRelay)
    } else if in_io_range(n, IoCategory::RobotControlStatusSignal) {
        Some(IoCategory::RobotControlStatusSignal)
    } else if in_io_range(n, IoCategory::PseudoInput) {
        Some(IoCategory::PseudoInput)
    } else {
        None
    }
}

/// Whether a count of plural I/O data is allowed: 1-474 and even.
pub open spec fn valid_io_count(count: int) -> bool {
    1 <= count <= 474 && count % 2 == 0
}

impl IoCategory {
    /// The category whose range holds `io_number`, or `None`.
    pub fn from_io_number(io_number: u16) -> (r: Option<Self>)
        ensures
            r == io_category_of(io_number),
    {
        let n = io_number;
        if 1 <= n && n <= 512 {
            Some(IoCategory::RobotUserInput)
        } else if 1001 <= n && n <= 1512 {
            Some(IoCategory::RobotUserOutput)
        } else if 2001 <= n && n <= 2128 {
            Some(IoCategory::ExternalInput)
        } else if 2701 <= n && n <= 2956 {
            Some(IoCategory::NetworkInput)
        } else if 3001 <= n && n <= 3128 {
            Some(IoCategory::ExternalOutput)
        } else if 3701 <= n && n <= 3956 {
            Some(IoCategory::NetworkOutput)
        } else if 4001 <= n && n <= 4256 {
            Some(IoCategory::RobotSystemInput)
        } else if 5001 <= n && n <= 5512 {
            Some(IoCategory::RobotSystemOutput)
        } else if 6001 <= n && n <= 6064 {
            Some(IoCategory::InterfacePanelInput)
        } else if 7001 <= n && n <= 7999 {
            Some(IoCategory::AuxiliaryRelay)
        } else if 8001 <= n && n <= 8512 {
            Some(IoCategory::RobotControlStatusSignal)
        } else if 8701 <= n && n <= 8720 {
            Some(IoCategory::PseudoInput)
        } else {
            None
        }
    }

    /// Whether some category holds `io_number`.
    pub fn is_valid_io_number(io_number: u16) -> (r: bool)
        ensures
            r == io_category_of(io_number) is Some,
    {
        Self::from_io_number(io_number).is_some()
    }

    /// The first and last I/O number of the category.
    pub fn range(&self) -> (r: (u16, u16))
        ensures
            r == io_range(*self),
    {
        match self {
            IoCategory::RobotUserInput => (1, 512),
            IoCategory::RobotUserOutput => (1001, 1512),
            IoCategory::ExternalInput => (2001, 2128),
            IoCategory::NetworkInput => (2701, 2956),
            IoCategory::ExternalOutput => (3001, 3128),
            IoCategory::NetworkOutput => (3701, 3956),
            IoCategory::RobotSystemInput => (4001, 4256),
            IoCategory::RobotSystemOutput => (5001, 5512),
            IoCategory::InterfacePanelInput => (6001, 6064),
            IoCategory::AuxiliaryRelay => (7001, 7999),
            IoCategory::RobotControlStatusSignal => (8001, 8512),
            IoCategory::PseudoInput => (8701, 8720),
        }
    }
}

/// The category that `from_io_number` gives holds the number in its range,
/// and every number in the range of a category gets that category back.
pub proof fn law_io_category_range(n: u16, c: IoCategory)
    ensures
        io_category_of(n) == Some(c) ==> in_io_range(n, c),
        in_io_range(n, c) ==> io_category_of(n) == Some(c),
{
}

/// Reads one I/O signal byte (command 0x78).
#[derive(Debug, Clone)]
pub struct ReadIo {
    pub io_number: u16,
}

impl ReadIo {
    /// A read of I/O `io_number`.
    pub fn new(io_number: u16) -> (r: Self)
        ensures
            r.io_number == io_number,
    {
        Self { io_number }
    }
}

impl Command for ReadIo {
    type Response = u8;

    open spec fn command_id_spec() -> u16 {
        0x78
    }

    open spec fn instance_spec(&self) -> u16 {
        self.io_number
    }

    open spec fn attribute_spec(&self) -> u8 {
        1
    }

    open spec fn service_spec(&self) -> u8 {
        0x0e
    }

    open spec fn serializable(&self) -> bool {
        true
    }

    open spec fn payload_spec(&self) -> Option<Seq<u8>> {
        Some(Seq::empty())
    }

    fn command_id() -> (r: u16) {
        0x78
    }

    fn serialize(&self) -> (r: Result<Vec<u8>, ProtocolError>) {
        Ok(Vec::new())
    }

    fn instance(&self) -> (r: u16) {
        self.io_number
    }

    fn attribute(&self) -> (r: u8) {
        1
    }

    fn service(&self) -> (r: u8) {
        0x0e
    }
}

/// Writes one I/O signal byte (command 0x78).
#[derive(Debug, Clone)]
pub struct WriteIo {
    pub io_number: u16,
    pub value: u8,
}

impl WriteIo {
    /// A write of `value` to I/O `io_number`.
    pub fn new(io_number: u16, value: u8) -> (r: Self)
        ensures
            r.io_number == io_number,
            r.value == value,
    {
        Self { io_number, value }
    }
}

impl Command for WriteIo {
    type Response = ();

    open spec fn command_id_spec() -> u16 {
        0x78
    }

    open spec fn instance_spec(&self) -> u16 {
        self.io_number
    }

    open spec fn attribute_spec(&self) -> u8 {
        1
    }

    open spec fn service_spec(&self) -> u8 {
        0x10
    }

    open spec fn serializable(&self) -> bool {
        true
    }

    /// The value followed by three zero bytes.
    open spec fn payload_spec(&self) -> Option<Seq<u8>> {
        Some(seq![self.value, 0u8, 0u8, 0u8])
    }

    fn command_id() -> (r: u16) {
        0x78
    }

    fn serialize(&self) -> (r: Result<Vec<u8>, ProtocolError>) {
        let v: Vec<u8> = vec![self.value, 0, 0, 0];
        assert(v@ =~= seq![self.value, 0u8, 0u8, 0u8]);
        Ok(v)
    }

    fn instance(&self) -> (r: u16) {
        self.io_number
    }

    fn attribute(&self) -> (r: u8) {
        1
    }

    fn service(&self) -> (r: u8) {
        0x10
    }
}

/// Reads `count` bytes of I/O data from `start_io_number` on (command 0x300).
#[derive(Debug, Clone)]
pub struct ReadMultipleIo {
    pub start_io_number: u16,
    pub count: u32,
}

impl ReadMultipleIo {
    /// A plural read; an I/O number outside every category is an invalid
    /// instance, a count outside 1-474 or odd an invalid message.
    pub fn new(start_io_number: u16, count: u32) -> (r: Result<Self, ProtocolError>)
        ensures
            io_category_of(start_io_number) is None ==> (r matches Err(ProtocolError::InvalidInstance(m))
                && m@ == with_number("Invalid I/O number: "@, start_io_number as nat, " (valid range: 0-999)"@)),
            io_category_of(start_io_number) is Some && !valid_io_count(count as int) ==> (r matches Err(
                ProtocolError::InvalidMessage(m),
            ) && m@ == "Invalid count"@),
            io_category_of(start_io_number) is Some && valid_io_count(count as int) ==> (r matches Ok(c)
                && c.start_io_number == start_io_number && c.count == count),
    {
        if !IoCategory::is_valid_io_number(start_io_number) {
            return Err(
                ProtocolError::InvalidInstance(
                    text_with_number("Invalid I/O number: ", start_io_number as u64, " (valid range: 0-999)"),
                ),
            );
        }
        if count == 0 || count > 474 || count % 2 != 0 {
            return Err(ProtocolError::InvalidMessage("Invalid count".to_string()));
        }
        Ok(Self { start_io_number, count })
    }
}

impl Command for ReadMultipleIo {
    type Response = Vec<u8>;

    open spec fn command_id_spec() -> u16 {
        0x300
    }

    open spec fn instance_spec(&self) -> u16 {
        self.start_io_number
    }

    open spec fn attribute_spec(&self) -> u8 {
        0
    }

    open spec fn service_spec(&self) -> u8 {
        0x33
    }

    open spec fn serializable(&self) -> bool {
        true
    }

    /// The count as a 32-bit integer.
    open spec fn payload_spec(&self) -> Option<Seq<u8>> {
        Some(le_u32(self.count))
    }

    fn command_id() -> (r: u16) {
        0x300
    }

    fn serialize(&self) -> (r: Result<Vec<u8>, ProtocolError>) {
        let mut v = Vec::new();
        push_u32_le(&mut v, self.count);
        assert(v@ =~= le_u32(self.count));
        Ok(v)
    }

    fn instance(&self) -> (r: u16) {
        self.start_io_number
    }

    fn attribute(&self) -> (r: u8) {
        0
    }

    fn service(&self) -> (r: u8) {
        0x33
    }
}

/// Writes bytes of I/O data from `start_io_number` on (command 0x300); each
/// byte holds eight signals.
#[derive(Debug, Clone)]
pub struct WriteMultipleIo {
    pub start_io_number: u16,
    pub io_data: Vec<u8>,
}

impl WriteMultipleIo {
    /// A plural write; an I/O number outside every category is an invalid
    /// instance, a data length outside 1-474 or odd an invalid message.
    pub fn new(start_io_number: u16, io_data: Vec<u8>) -> (r: Result<Self, ProtocolError>)
        ensures
            io_category_of(start_io_number) is None ==> (r matches Err(ProtocolError::InvalidInstance(m))
                && m@ == with_number("Invalid I/O number: "@, start_io_number as nat, " (valid range: 0-999)"@)),
            io_category_of(start_io_number) is Some && !valid_io_count(io_data@.len() as int) ==> (r matches Err(
                ProtocolError::InvalidMessage(m),
            ) && m@ == "Invalid count"@),
            io_category_of(start_io_number) is Some && valid_io_count(io_data@.len() as int) ==> (r matches Ok(c)
                && c.start_io_number == start_io_number && c.io_data@ == io_data@),
    {
        if !IoCategory::is_valid_io_number(start_io_number) {
            return Err(
                ProtocolError::InvalidInstance(
                    text_with_number("Invalid I/O number: ", start_io_number as u64, " (valid range: 0-999)"),
                ),
            );
        }
        let count = io_data.len();
        if count == 0 || count > 474 || count % 2 != 0 {
            return Err(ProtocolError::InvalidMessage("Invalid count".to_string()));
        }
        Ok(Self { start_io_number, io_data })
    }
}

impl Command for WriteMultipleIo {
    type Response = ();

    open spec fn command_id_spec() -> u16 {
        0x300
    }

    open spec fn instance_spec(&self) -> u16 {
        self.start_io_number
    }

    open spec fn attribute_spec(&self) -> u8 {
        0
    }

    open spec fn service_spec(&self) -> u8 {
        0x34
    }

    open spec fn serializable(&self) -> bool {
        true
    }

    /// The number of bytes as a 32-bit integer, then the bytes; refused when
    /// the number does not fit in 32 bits.
    open spec fn payload_spec(&self) -> Option<Seq<u8>> {
        if self.io_data@.len() <= u32::MAX {
            Some(le_u32(self.io_data@.len() as u32) + self.io_data@)
        } else {
            None
        }
    }

    fn command_id() -> (r: u16) {
        0x300
    }

    fn serialize(&self) -> (r: Result<Vec<u8>, ProtocolError>)
        ensures
            r matches Err(e) ==> (e matches ProtocolError::InvalidMessage(m) && m@ == "I/O data too large"@),
    {
        if self.io_data.len() as u64 > u32::MAX as u64 {
            return Err(ProtocolError::InvalidMessage("I/O data too large".to_string()));
        }
        let count = self.io_data.len() as u32;
        let mut payload = Vec::new();
        push_u32_le(&mut payload, count);
        push_all(&mut payload, self.io_data.as_slice());
        assert(payload@ =~= le_u32(count) + self.io_data@);
        Ok(payload)
    }

    fn instance(&self) -> (r: u16) {
        self.start_io_number
    }

    fn attribute(&self) -> (r: u8) {
        0
    }

    fn service(&self) -> (r: u8) {
        0x34
    }
}

} // verus!
