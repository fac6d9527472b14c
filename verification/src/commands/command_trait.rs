//! The trait shared by every HSES command, with the division and service codes.

use crate::error::ProtocolError;
use vstd::prelude::*;

verus! {

/// A request to the robot controller: its command number, the instance,
/// attribute and service of its sub-header, and its payload.
pub trait Command {
    /// What the controller answers with.
    type Response;

    /// The command number.
    spec fn command_id_spec() -> u16;

    /// The instance of the sub-header.
    spec fn instance_spec(&self) -> u16;

    /// The attribute of the sub-header.
    spec fn attribute_spec(&self) -> u8;

    /// The service code of the sub-header.
    spec fn service_spec(&self) -> u8;

    /// Whether the payload can be built without arithmetic overflow.
    spec fn serializable(&self) -> bool;

    /// The payload, or `None` where building it is refused with an error.
    spec fn payload_spec(&self) -> Option<Seq<u8>>;

    /// The command number.
    fn command_id() -> (r: u16)
        ensures
            r == Self::command_id_spec(),
    ;

    /// Builds the payload.
    fn serialize(&self) -> (r: Result<Vec<u8>, ProtocolError>)
        requires
            self.serializable(),
        ensures
            match r {
                Ok(bytes) => self.payload_spec() == Some(bytes@),
                Err(_) => self.payload_spec() is None,
            },
    ;

    /// The instance of the sub-header.
    fn instance(&self) -> (r: u16)
        ensures
            r == self.instance_spec(),
    ;

    /// The attribute of the sub-header.
    fn attribute(&self) -> (r: u8)
        ensures
            r == self.attribute_spec(),
    ;

    /// The service code of the sub-header.
    fn service(&self) -> (r: u8)
        ensures
            r == self.service_spec(),
    ;
}

/// The division of a message: robot control or file control.
#[derive(Debug, Clone, Copy, PartialEq, Eq, Structural)]
pub enum Division {
    Robot,
    File,
}

impl Division {
    /// The code on the wire: 1 for robot, 2 for file.
    pub open spec fn code(self) -> u8 {
        match self {
            Division::Robot => 1,
            Division::File => 2,
        }
    }

    /// The code on the wire: 1 for robot, 2 for file.
    pub fn value(self) -> (r: u8)
        ensures
            r == self.code(),
    {
        match self {
            Division::Robot => 1,
            Division::File => 2,
        }
    }
}

/// The service of a request: read or write one attribute, all attributes,
/// or plural data.
#[derive(Debug, Clone, Copy, PartialEq, Eq, Structural)]
pub enum Service {
    GetSingle,
    SetSingle,
    GetAll,
    SetAll,
    ReadMultiple,
    WriteMultiple,
}

impl Service {
    /// The code on the wire: 0x0e get single, 0x10 set single, 0x01 get
    /// all, 0x02 set all, 0x33 read plural, 0x34 write plural.
    pub open spec fn code(self) -> u8 {
        match self {
            Service::GetSingle => 0x0e,
            Service::SetSingle => 0x10,
            Service::GetAll => 0x01,
            Service::SetAll => 0x02,
            Service::ReadMultiple => 0x33,
            Service::WriteMultiple => 0x34,
        }
    }

    /// The code on the wire.
    pub fn value(self) -> (r: u8)
        ensures
            r == self.code(),
    {
        match self {
            Service::GetSingle => 0x0e,
            Service::SetSingle => 0x10,
            Service::GetAll => 0x01,
            Service::SetAll => 0x02,
            Service::ReadMultiple => 0x33,
            Service::WriteMultiple => 0x34,
        }
    }
}

} // verus!
