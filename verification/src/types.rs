//! Variable kinds, typed variables and coordinate systems.

use vstd::prelude::*;

verus! {

/// The kinds of controller data, by the command that reads them.
#[derive(Debug, Clone, Copy, PartialEq, Eq, Structural)]
pub enum VarType {
    Io,
    Register,
    Byte,
    Integer,
    Double,
    Real,
    String,
    RobotPosition,
    BasePosition,
    ExternalAxis,
}

impl VarType {
    /// The command number: 0x78 I/O, 0x79 register, 0x7a-0x7e B, I, D, R
    /// and S variables, 0x7f-0x81 robot, base and external axis positions.
    pub open spec fn code(self) -> u16 {
        match self {
            VarType::Io => 0x78,
            VarType::Register => 0x79,
            VarType::Byte => 0x7a,
            VarType::Integer => 0x7b,
            VarType::Double => 0x7c,
            VarType::Real => 0x7d,
            VarType::String => 0x7e,
            VarType::RobotPosition => 0x7f,
            VarType::BasePosition => 0x80,
            VarType::ExternalAxis => 0x81,
        }
    }

    /// The command number.
    pub fn value(self) -> (r: u16)
        ensures
            r == self.code(),
    {
        match self {
            VarType::Io => 0x78,
            VarType::Register => 0x79,
            VarType::Byte => 0x7a,
            VarType::Integer => 0x7b,
            VarType::Double => 0x7c,
            VarType::Real => 0x7d,
            VarType::String => 0x7e,
            VarType::RobotPosition => 0x7f,
            VarType::BasePosition => 0x80,
            VarType::ExternalAxis => 0x81,
        }
    }
}

/// A variable of a kind, its number and its value.
#[derive(Debug, Clone)]
pub struct Variable<T> {
    pub var_type: VarType,
    pub index: u8,
    pub value: T,
}

impl<T> Variable<T> {
    /// A variable with this kind, number and value.
    pub fn new(var_type: VarType, index: u8, value: T) -> (r: Self)
        ensures
            r.var_type == var_type,
            r.index == index,
            r.value == value,
    {
        Self { var_type, index, value }
    }

    /// A variable with this kind and number and the default value of `T`.
    pub fn with_default(var_type: VarType, index: u8) -> (r: Self) where T: Default
        ensures
            r.var_type == var_type,
            r.index == index,
    {
        Self { var_type, index, value: T::default() }
    }
}

/// The coordinate systems a position can be given in.
#[derive(Debug, Clone, Copy, PartialEq, Eq, Structural)]
pub enum CoordinateSystem {
    Base,
    Robot,
    Tool,
    User(u8),
}

/// How a control group's position is read: as pulses or as Cartesian
/// coordinates.
#[derive(Debug, Clone, Copy, PartialEq, Eq, Structural)]
pub enum CoordinateSystemType {
    RobotPulse,
    BasePulse,
    StationPulse,
    RobotCartesian,
}

impl CoordinateSystemType {
    /// The number: 0 robot pulse, 1 base pulse, 3 station pulse, 4 robot
    /// Cartesian.
    pub open spec fn code(self) -> u8 {
        match self {
            CoordinateSystemType::RobotPulse => 0,
            CoordinateSystemType::BasePulse => 1,
            CoordinateSystemType::StationPulse => 3,
            CoordinateSystemType::RobotCartesian => 4,
        }
    }

    /// The number.
    pub fn value(self) -> (r: u8)
        ensures
            r == self.code(),
    {
        match self {
            CoordinateSystemType::RobotPulse => 0,
            CoordinateSystemType::BasePulse => 1,
            CoordinateSystemType::StationPulse => 3,
            CoordinateSystemType::RobotCartesian => 4,
        }
    }
}

} // verus!
