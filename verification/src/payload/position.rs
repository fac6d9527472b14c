//! Robot positions (command 0x75 and position variables) and the
//! configuration bit fields of Cartesian positions.

use crate::encoding::TextEncoding;
use crate::error::{text_with_number, with_number, ProtocolError};
use crate::payload::payload_trait::HsesPayload;
use crate::payload::variable::{i32s_bytes, lemma_flatten_map_fixed};
use crate::wire::{
    i32_at, le_i32, le_u32, lemma_i32_roundtrip, lemma_u32_roundtrip, push_i32_le, push_u32_le,
    read_i32_le, read_u32_le, u32_at,
};
use vstd::prelude::*;

verus! {

/// S (swing, J1) axis placement.
#[derive(Debug, Clone, Copy, PartialEq, Eq)]
pub enum SAxisPlacement {
    Front,
    Back,
}

/// U (upper arm, J3) axis placement.
#[derive(Debug, Clone, Copy, PartialEq, Eq)]
pub enum UAxisPlacement {
    Up,
    Down,
}

/// B (bend, J5) axis placement.
#[derive(Debug, Clone, Copy, PartialEq, Eq)]
pub enum BAxisPlacement {
    Flip,
    NoFlip,
}

/// R (rotate, J4) axis turn number: single below 180 degrees, double from 180.
#[derive(Debug, Clone, Copy, PartialEq, Eq)]
pub enum RAxisTurnNum {
    Single,
    Double,
}

/// T (twist, J6) axis turn number: single below 180 degrees, double from 180.
#[derive(Debug, Clone, Copy, PartialEq, Eq)]
pub enum TAxisTurnNum {
    Single,
    Double,
}

/// S (swing, J1) axis turn number: single below 180 degrees, double from 180.
#[derive(Debug, Clone, Copy, PartialEq, Eq)]
pub enum SAxisTurnNum {
    Single,
    Double,
}

/// Redundant S axis placement.
#[derive(Debug, Clone, Copy, PartialEq, Eq)]
pub enum RedundantSAxisPlacement {
    Front,
    Back,
}

/// Which inverse-kinematics solution to prefer: the one closest to the previous step, or the one the configuration names.
#[derive(Debug, Clone, Copy, PartialEq, Eq)]
pub enum IkSolutionBasis {
    PreviousStep,
    Configuration,
}

/// L (lower arm, J2) axis turn number: single below 180 degrees, double from 180.
#[derive(Debug, Clone, Copy, PartialEq, Eq)]
pub enum LAxisTurnNum {
    Single,
    Double,
}

/// U (upper arm, J3) axis turn number: single below 180 degrees, double from 180.
#[derive(Debug, Clone, Copy, PartialEq, Eq)]
pub enum UAxisTurnNum {
    Single,
    Double,
}

/// B (bend, J5) axis turn number: single below 180 degrees, double from 180.
#[derive(Debug, Clone, Copy, PartialEq, Eq)]
pub enum BAxisTurnNum {
    Single,
    Double,
}

/// E (external axis) turn number: single below 180 degrees, double from 180.
#[derive(Debug, Clone, Copy, PartialEq, Eq)]
pub enum EAxisTurnNum {
    Single,
    Double,
}

/// W (wrist-extension axis) turn number: single below 180 degrees, double from 180.
#[derive(Debug, Clone, Copy, PartialEq, Eq)]
pub enum WAxisTurnNum {
    Single,
    Double,
}

/// Configuration bit field of a Cartesian position (bits 0-7).
#[derive(Debug, Clone, Copy, PartialEq, Eq)]
pub struct Configuration {
    pub s_placement: SAxisPlacement,
    pub u_placement: UAxisPlacement,
    pub b_placement: BAxisPlacement,
    pub r_turn_num: RAxisTurnNum,
    pub t_turn_num: TAxisTurnNum,
    pub s_turn_num: SAxisTurnNum,
    pub redundant_s_placement: RedundantSAxisPlacement,
    pub ik_solution_basis: IkSolutionBasis,
}

/// Extended configuration bit field of a Cartesian position (bits 0-4; bits 5-7 are reserved).
#[derive(Debug, Clone, Copy, PartialEq, Eq)]
pub struct ExtendedConfiguration {
    pub bit0: LAxisTurnNum,
    pub bit1: UAxisTurnNum,
    pub bit2: BAxisTurnNum,
    pub bit3: EAxisTurnNum,
    pub bit4: WAxisTurnNum,
    pub bit5: bool,
    pub bit6: bool,
    pub bit7: bool,
}

/// The configuration that a raw configuration byte holds.
pub open spec fn configuration_of_raw(value: u8) -> Configuration {
    Configuration {
        s_placement: if value & 0x01 == 0 { SAxisPlacement::Front } else { SAxisPlacement::Back },
        u_placement: if value & 0x02 == 0 { UAxisPlacement::Up } else { UAxisPlacement::Down },
        b_placement: if value & 0x04 == 0 { BAxisPlacement::Flip } else { BAxisPlacement::NoFlip },
        r_turn_num: if value & 0x08 == 0 { RAxisTurnNum::Single } else { RAxisTurnNum::Double },
        t_turn_num: if value & 0x10 == 0 { TAxisTurnNum::Single } else { TAxisTurnNum::Double },
        s_turn_num: if value & 0x20 == 0 { SAxisTurnNum::Single } else { SAxisTurnNum::Double },
        redundant_s_placement: if value & 0x40 == 0 { RedundantSAxisPlacement::Front } else { RedundantSAxisPlacement::Back },
        ik_solution_basis: if value & 0x80 == 0 { IkSolutionBasis::PreviousStep } else { IkSolutionBasis::Configuration },
    }
}

/// The raw byte of a configuration.
pub open spec fn configuration_raw(c: Configuration) -> u8 {
    (if c.s_placement is Back { 0x01u8 } else { 0 })
        | (if c.u_placement is Down { 0x02u8 } else { 0 })
        | (if c.b_placement is NoFlip { 0x04u8 } else { 0 })
        | (if c.r_turn_num is Double { 0x08u8 } else { 0 })
        | (if c.t_turn_num is Double { 0x10u8 } else { 0 })
        | (if c.s_turn_num is Double { 0x20u8 } else { 0 })
        | (if c.redundant_s_placement is Back { 0x40u8 } else { 0 })
        | (if c.ik_solution_basis is Configuration { 0x80u8 } else { 0 })
}

/// The extended configuration that a raw byte holds.
pub open spec fn extendedconfiguration_of_raw(value: u8) -> ExtendedConfiguration {
    ExtendedConfiguration {
        bit0: if value & 0x01 == 0 { LAxisTurnNum::Single } else { LAxisTurnNum::Double },
        bit1: if value & 0x02 == 0 { UAxisTurnNum::Single } else { UAxisTurnNum::Double },
        bit2: if value & 0x04 == 0 { BAxisTurnNum::Single } else { BAxisTurnNum::Double },
        bit3: if value & 0x08 == 0 { EAxisTurnNum::Single } else { EAxisTurnNum::Double },
        bit4: if value & 0x10 == 0 { WAxisTurnNum::Single } else { WAxisTurnNum::Double },
        bit5: value & 0x20 != 0,
        bit6: value & 0x40 != 0,
        bit7: value & 0x80 != 0,
    }
}

/// The raw byte of an extended configuration.
pub open spec fn extendedconfiguration_raw(c: ExtendedConfiguration) -> u8 {
    (if c.bit0 is Double { 0x01u8 } else { 0 })
        | (if c.bit1 is Double { 0x02u8 } else { 0 })
        | (if c.bit2 is Double { 0x04u8 } else { 0 })
        | (if c.bit3 is Double { 0x08u8 } else { 0 })
        | (if c.bit4 is Double { 0x10u8 } else { 0 })
        | (if c.bit5 { 0x20u8 } else { 0 })
        | (if c.bit6 { 0x40u8 } else { 0 })
        | (if c.bit7 { 0x80u8 } else { 0 })
}

impl Configuration {
    /// The configuration that a raw byte holds.
    pub fn from_raw(value: u8) -> (r: Self)
        ensures
            r == configuration_of_raw(value),
    {
        Self {
            s_placement: if value & 0x01 == 0 {
                SAxisPlacement::Front
            } else {
                SAxisPlacement::Back
            },
            u_placement: if value & 0x02 == 0 {
                UAxisPlacement::Up
            } else {
                UAxisPlacement::Down
            },
            b_placement: if value & 0x04 == 0 {
                BAxisPlacement::Flip
            } else {
                BAxisPlacement::NoFlip
            },
            r_turn_num: if value & 0x08 == 0 {
                RAxisTurnNum::Single
            } else {
                RAxisTurnNum::Double
            },
            t_turn_num: if value & 0x10 == 0 {
                TAxisTurnNum::Single
            } else {
                TAxisTurnNum::Double
            },
            s_turn_num: if value & 0x20 == 0 {
                SAxisTurnNum::Single
            } else {
                SAxisTurnNum::Double
            },
            redundant_s_placement: if value & 0x40 == 0 {
                RedundantSAxisPlacement::Front
            } else {
                RedundantSAxisPlacement::Back
            },
            ik_solution_basis: if value & 0x80 == 0 {
                IkSolutionBasis::PreviousStep
            } else {
                IkSolutionBasis::Configuration
            },
        }
    }

    /// The raw byte of this configuration.
    pub fn to_raw(self) -> (r: u8)
        ensures
            r == configuration_raw(self),
    {
        (match self.s_placement {
            SAxisPlacement::Back => 0x01u8,
            _ => 0,
        }) | (match self.u_placement {
            UAxisPlacement::Down => 0x02u8,
            _ => 0,
        }) | (match self.b_placement {
            BAxisPlacement::NoFlip => 0x04u8,
            _ => 0,
        }) | (match self.r_turn_num {
            RAxisTurnNum::Double => 0x08u8,
            _ => 0,
        }) | (match self.t_turn_num {
            TAxisTurnNum::Double => 0x10u8,
            _ => 0,
        }) | (match self.s_turn_num {
            SAxisTurnNum::Double => 0x20u8,
            _ => 0,
        }) | (match self.redundant_s_placement {
            RedundantSAxisPlacement::Back => 0x40u8,
            _ => 0,
        }) | (match self.ik_solution_basis {
            IkSolutionBasis::Configuration => 0x80u8,
            _ => 0,
        })
    }
}

impl ExtendedConfiguration {
    /// The extended configuration that a raw byte holds.
    pub fn from_raw(value: u8) -> (r: Self)
        ensures
            r == extendedconfiguration_of_raw(value),
    {
        Self {
            bit0: if value & 0x01 == 0 {
                LAxisTurnNum::Single
            } else {
                LAxisTurnNum::Double
            },
            bit1: if value & 0x02 == 0 {
                UAxisTurnNum::Single
            } else {
                UAxisTurnNum::Double
            },
            bit2: if value & 0x04 == 0 {
                BAxisTurnNum::Single
            } else {
                BAxisTurnNum::Double
            },
            bit3: if value & 0x08 == 0 {
                EAxisTurnNum::Single
            } else {
                EAxisTurnNum::Double
            },
            bit4: if value & 0x10 == 0 {
                WAxisTurnNum::Single
            } else {
                WAxisTurnNum::Double
            },
            bit5: value & 0x20 != 0,
            bit6: value & 0x40 != 0,
            bit7: value & 0x80 != 0,
        }
    }

    /// The raw byte of this extended configuration.
    pub fn to_raw(self) -> (r: u8)
        ensures
            r == extendedconfiguration_raw(self),
    {
        (match self.bit0 {
            LAxisTurnNum::Double => 0x01u8,
            _ => 0,
        }) | (match self.bit1 {
            UAxisTurnNum::Double => 0x02u8,
            _ => 0,
        }) | (match self.bit2 {
            BAxisTurnNum::Double => 0x04u8,
            _ => 0,
        }) | (match self.bit3 {
            EAxisTurnNum::Double => 0x08u8,
            _ => 0,
        }) | (match self.bit4 {
            WAxisTurnNum::Double => 0x10u8,
            _ => 0,
        }) | (if self.bit5 {
            0x20u8
        } else {
            0
        }) | (if self.bit6 {
            0x40u8
        } else {
            0
        }) | (if self.bit7 {
            0x80u8
        } else {
            0
        })
    }
}

/// Every raw byte is the raw byte of the configuration it holds,
/// and every configuration is held by its raw byte.
pub proof fn law_configuration_raw_roundtrip(value: u8, c: Configuration)
    ensures
        configuration_raw(configuration_of_raw(value)) == value,
        configuration_of_raw(configuration_raw(c)) == c,
{
    assert((if value & 0x01 == 0 { 0u8 } else { 0x01u8 }) | (if value & 0x02 == 0 { 0u8 } else { 0x02u8 }) | (if value & 0x04 == 0 { 0u8 } else { 0x04u8 }) | (if value & 0x08 == 0 { 0u8 } else { 0x08u8 }) | (if value & 0x10 == 0 { 0u8 } else { 0x10u8 }) | (if value & 0x20 == 0 { 0u8 } else { 0x20u8 }) | (if value & 0x40 == 0 { 0u8 } else { 0x40u8 }) | (if value & 0x80 == 0 { 0u8 } else { 0x80u8 }) == value) by (bit_vector);
    let x0 = c.s_placement is Back;
    let x1 = c.u_placement is Down;
    let x2 = c.b_placement is NoFlip;
    let x3 = c.r_turn_num is Double;
    let x4 = c.t_turn_num is Double;
    let x5 = c.s_turn_num is Double;
    let x6 = c.redundant_s_placement is Back;
    let x7 = c.ik_solution_basis is Configuration;
    let w = configuration_raw(c);
    assert(((w & 0x01 != 0) == x0) && ((w & 0x02 != 0) == x1) && ((w & 0x04 != 0) == x2) && ((w & 0x08 != 0) == x3) && ((w & 0x10 != 0) == x4) && ((w & 0x20 != 0) == x5) && ((w & 0x40 != 0) == x6) && ((w & 0x80 != 0) == x7)) by (bit_vector)
        requires
            w == (if x0 { 0x01u8 } else { 0 }) | (if x1 { 0x02u8 } else { 0 }) | (if x2 { 0x04u8 } else { 0 }) | (if x3 { 0x08u8 } else { 0 }) | (if x4 { 0x10u8 } else { 0 }) | (if x5 { 0x20u8 } else { 0 }) | (if x6 { 0x40u8 } else { 0 }) | (if x7 { 0x80u8 } else { 0 }),
    ;
}

/// Every raw byte is the raw byte of the extended configuration it holds,
/// and every extended configuration is held by its raw byte.
pub proof fn law_extendedconfiguration_raw_roundtrip(value: u8, c: ExtendedConfiguration)
    ensures
        extendedconfiguration_raw(extendedconfiguration_of_raw(value)) == value,
        extendedconfiguration_of_raw(extendedconfiguration_raw(c)) == c,
{
    assert((if value & 0x01 == 0 { 0u8 } else { 0x01u8 }) | (if value & 0x02 == 0 { 0u8 } else { 0x02u8 }) | (if value & 0x04 == 0 { 0u8 } else { 0x04u8 }) | (if value & 0x08 == 0 { 0u8 } else { 0x08u8 }) | (if value & 0x10 == 0 { 0u8 } else { 0x10u8 }) | (if value & 0x20 == 0 { 0u8 } else { 0x20u8 }) | (if value & 0x40 == 0 { 0u8 } else { 0x40u8 }) | (if value & 0x80 == 0 { 0u8 } else { 0x80u8 }) == value) by (bit_vector);
    let x0 = c.bit0 is Double;
    let x1 = c.bit1 is Double;
    let x2 = c.bit2 is Double;
    let x3 = c.bit3 is Double;
    let x4 = c.bit4 is Double;
    let x5 = c.bit5;
    let x6 = c.bit6;
    let x7 = c.bit7;
    let w = extendedconfiguration_raw(c);
    assert(((w & 0x01 != 0) == x0) && ((w & 0x02 != 0) == x1) && ((w & 0x04 != 0) == x2) && ((w & 0x08 != 0) == x3) && ((w & 0x10 != 0) == x4) && ((w & 0x20 != 0) == x5) && ((w & 0x40 != 0) == x6) && ((w & 0x80 != 0) == x7)) by (bit_vector)
        requires
            w == (if x0 { 0x01u8 } else { 0 }) | (if x1 { 0x02u8 } else { 0 }) | (if x2 { 0x04u8 } else { 0 }) | (if x3 { 0x08u8 } else { 0 }) | (if x4 { 0x10u8 } else { 0 }) | (if x5 { 0x20u8 } else { 0 }) | (if x6 { 0x40u8 } else { 0 }) | (if x7 { 0x80u8 } else { 0 }),
    ;
}

/// Joint position in encoder pulses, one value per axis.
#[derive(Debug, Clone, PartialEq, Eq)]
pub struct PulsePosition {
    pub joints: Vec<i32>,
}

impl PulsePosition {
    /// A pulse position with these joint values.
    pub fn new(joints: Vec<i32>) -> (r: Self)
        ensures
            r.joints@ == joints@,
    {
        Self { joints }
    }
}

/// Cartesian position as the controller sends it: coordinates in
/// micrometres, angles in units of 0.0001 degree.
#[derive(Debug, Clone, Copy, PartialEq, Eq)]
pub struct CartesianPosition {
    /// X in micrometres.
    pub x: i32,
    /// Y in micrometres.
    pub y: i32,
    /// Z in micrometres.
    pub z: i32,
    /// Rotation about X in 0.0001 degree.
    pub rx: i32,
    /// Rotation about Y in 0.0001 degree.
    pub ry: i32,
    /// Rotation about Z in 0.0001 degree.
    pub rz: i32,
    /// Tool number.
    pub tool_no: u8,
    /// User coordinate number.
    pub user_coord_no: u8,
    /// Configuration.
    pub configuration: Configuration,
    /// Extended configuration.
    pub extended_configuration: ExtendedConfiguration,
}

impl CartesianPosition {
    /// A Cartesian position from its fields.
    pub fn new(
        x: i32,
        y: i32,
        z: i32,
        rx: i32,
        ry: i32,
        rz: i32,
        tool_no: u8,
        user_coord_no: u8,
        configuration: Configuration,
        extended_configuration: ExtendedConfiguration,
    ) -> (r: Self)
        ensures
            r == (CartesianPosition {
                x,
                y,
                z,
                rx,
                ry,
                rz,
                tool_no,
                user_coord_no,
                configuration,
                extended_configuration,
            }),
    {
        Self { x, y, z, rx, ry, rz, tool_no, user_coord_no, configuration, extended_configuration }
    }
}

/// A robot position: joint pulses or a Cartesian position.
#[derive(Debug, Clone, PartialEq, Eq)]
pub enum Position {
    Pulse(PulsePosition),
    Cartesian(CartesianPosition),
}

/// The bytes of a position: a 20-byte head (type, configuration, tool,
/// user frame, extended configuration, each a 32-bit word) and then the
/// joints or the six coordinates as 32-bit words. A pulse position has type 0
/// and an all-zero head; a Cartesian one has type 16.
pub open spec fn position_bytes(p: Position) -> Seq<u8> {
    match p {
        Position::Pulse(pulse) => le_u32(0) + le_u32(0) + le_u32(0) + le_u32(0) + le_u32(0)
            + i32s_bytes(pulse.joints@),
        Position::Cartesian(c) => le_u32(16) + le_u32(configuration_raw(c.configuration) as u32)
            + le_u32(c.tool_no as u32) + le_u32(c.user_coord_no as u32) + le_u32(
            extendedconfiguration_raw(c.extended_configuration) as u32,
        ) + le_i32(c.x) + le_i32(c.y) + le_i32(c.z) + le_i32(c.rx) + le_i32(c.ry) + le_i32(c.rz),
    }
}

/// The Cartesian position that bytes of type 16 hold: the low byte of each
/// head word, and the six coordinates from byte 20 on.
pub open spec fn cartesian_of_bytes(data: Seq<u8>) -> CartesianPosition {
    CartesianPosition {
        x: i32_at(data, 20),
        y: i32_at(data, 24),
        z: i32_at(data, 28),
        rx: i32_at(data, 32),
        ry: i32_at(data, 36),
        rz: i32_at(data, 40),
        tool_no: data[8],
        user_coord_no: data[12],
        configuration: configuration_of_raw(data[4]),
        extended_configuration: extendedconfiguration_of_raw(data[16]),
    }
}

/// Whether `joints` are the joint values that bytes of type 0 hold: one per
/// whole 32-bit word after the 20-byte head.
pub open spec fn pulse_joints_of_bytes(data: Seq<u8>, joints: Seq<i32>) -> bool {
    &&& joints.len() == (data.len() - 20) / 4
    &&& forall|k: int| 0 <= k < joints.len() ==> #[trigger] joints[k] == i32_at(data, 20 + 4 * k)
}

impl Position {
    /// The bytes of this position.
    pub fn serialize(&self) -> (r: Result<Vec<u8>, ProtocolError>)
        ensures
            r matches Ok(bytes) && bytes@ == position_bytes(*self),
    {
        let mut data = Vec::new();
        match self {
            Position::Pulse(pulse) => {
                push_u32_le(&mut data, 0);
                push_u32_le(&mut data, 0);
                push_u32_le(&mut data, 0);
                push_u32_le(&mut data, 0);
                push_u32_le(&mut data, 0);
                let ghost head = data@;
                let mut i: usize = 0;
                while i < pulse.joints.len()
                    invariant
                        i <= pulse.joints@.len(),
                        data@ == head + i32s_bytes(pulse.joints@.take(i as int)),
                    decreases pulse.joints@.len() - i,
                {
                    push_i32_le(&mut data, pulse.joints[i]);
                    i = i + 1;
                    assert(pulse.joints@.take(i as int).drop_last() =~= pulse.joints@.take(
                        (i - 1) as int,
                    ));
                    assert(data@ =~= head + i32s_bytes(pulse.joints@.take(i as int)));
                }
                assert(pulse.joints@.take(i as int) =~= pulse.joints@);
            },
            Position::Cartesian(cart) => {
                push_u32_le(&mut data, 16);
                push_u32_le(&mut data, cart.configuration.to_raw() as u32);
                push_u32_le(&mut data, cart.tool_no as u32);
                push_u32_le(&mut data, cart.user_coord_no as u32);
                push_u32_le(&mut data, cart.extended_configuration.to_raw() as u32);
                push_i32_le(&mut data, cart.x);
                push_i32_le(&mut data, cart.y);
                push_i32_le(&mut data, cart.z);
                push_i32_le(&mut data, cart.rx);
                push_i32_le(&mut data, cart.ry);
                push_i32_le(&mut data, cart.rz);
            },
        }
        assert(data@ =~= position_bytes(*self));
        Ok(data)
    }

    /// Reads a position. Fewer than 4 bytes, or fewer than 44 for a known
    /// type, are an underflow; a type other than 0 (pulse) and 16 (Cartesian)
    /// is a position error.
    pub fn deserialize(data: &[u8], encoding: TextEncoding) -> (r: Result<Self, ProtocolError>)
        ensures
            data@.len() < 4 ==> r matches Err(ProtocolError::Underflow),
            data@.len() >= 4 && (u32_at(data@, 0) == 0 || u32_at(data@, 0) == 16) && data@.len()
                < 44 ==> r matches Err(ProtocolError::Underflow),
            data@.len() >= 4 && u32_at(data@, 0) != 0 && u32_at(data@, 0) != 16 ==> (r matches Err(
                ProtocolError::PositionError(m),
            ) && m@ == with_number("Unknown position type: "@, u32_at(data@, 0) as nat, ""@)),
            data@.len() >= 44 && u32_at(data@, 0) == 0 ==> (r matches Ok(Position::Pulse(p))
                && pulse_joints_of_bytes(data@, p.joints@)),
            data@.len() >= 44 && u32_at(data@, 0) == 16 ==> r == Ok::<Position, ProtocolError>(
                Position::Cartesian(cartesian_of_bytes(data@)),
            ),
    {
        if data.len() < 4 {
            return Err(ProtocolError::Underflow);
        }
        let position_type = read_u32_le(data, 0);
        if position_type == 0 {
            if data.len() < 44 {
                return Err(ProtocolError::Underflow);
            }
            let mut joints: Vec<i32> = Vec::new();
            let mut off: usize = 20;
            while data.len() - off >= 4
                invariant
                    data@.len() >= 44,
                    20 <= off <= data@.len(),
                    (off - 20) % 4 == 0,
                    joints@.len() * 4 == off - 20,
                    forall|j: int| 0 <= j < joints@.len() ==> #[trigger] joints@[j] == i32_at(data@, 20 + 4 * j),
                decreases data@.len() - off,
            {
                joints.push(read_i32_le(data, off));
                off = off + 4;
            }
            assert(joints@.len() == (data@.len() - 20) / 4);
            Ok(Position::Pulse(PulsePosition::new(joints)))
        } else if position_type == 16 {
            if data.len() < 44 {
                return Err(ProtocolError::Underflow);
            }
            let c = CartesianPosition {
                x: read_i32_le(data, 20),
                y: read_i32_le(data, 24),
                z: read_i32_le(data, 28),
                rx: read_i32_le(data, 32),
                ry: read_i32_le(data, 36),
                rz: read_i32_le(data, 40),
                tool_no: data[8],
                user_coord_no: data[12],
                configuration: Configuration::from_raw(data[4]),
                extended_configuration: ExtendedConfiguration::from_raw(data[16]),
            };
            Ok(Position::Cartesian(c))
        } else {
            Err(ProtocolError::PositionError(text_with_number("Unknown position type: ", position_type as u64, "")))
        }
    }
}

impl HsesPayload for Position {
    open spec fn serializable(&self) -> bool {
        true
    }

    open spec fn payload_bytes(&self, encoding: TextEncoding) -> Seq<u8> {
        position_bytes(*self)
    }

    open spec fn decodable(data: Seq<u8>) -> bool {
        data.len() >= 44 && (u32_at(data, 0) == 0 || u32_at(data, 0) == 16)
    }

    open spec fn decodes_to(data: Seq<u8>, encoding: TextEncoding, v: Self) -> bool {
        if u32_at(data, 0) == 0 {
            v matches Position::Pulse(p) && pulse_joints_of_bytes(data, p.joints@)
        } else {
            v == Position::Cartesian(cartesian_of_bytes(data))
        }
    }

    /// The bytes of the position; the encoding plays no part.
    fn serialize(&self, encoding: TextEncoding) -> (r: Result<Vec<u8>, ProtocolError>) {
        Position::serialize(self)
    }

    /// Reads a position; the encoding plays no part.
    fn deserialize(data: &[u8], encoding: TextEncoding) -> (r: Result<Self, ProtocolError>) {
        Position::deserialize(data, encoding)
    }
}

/// A Cartesian position read back from its own bytes is the same position.
#[verifier::rlimit(80)]
pub proof fn law_cartesian_position_roundtrip(c: CartesianPosition)
    ensures
        Position::decodable(position_bytes(Position::Cartesian(c))),
        Position::decodes_to(
            position_bytes(Position::Cartesian(c)),
            TextEncoding::Utf8,
            Position::Cartesian(c),
        ),
{
    let b = position_bytes(Position::Cartesian(c));
    lemma_u32_roundtrip(16);
    assert(b.subrange(0, 4) =~= le_u32(16));
    let cr = configuration_raw(c.configuration);
    let er = extendedconfiguration_raw(c.extended_configuration);
    law_configuration_raw_roundtrip(0, c.configuration);
    law_extendedconfiguration_raw_roundtrip(0, c.extended_configuration);
    let t = c.tool_no;
    let u = c.user_coord_no;
    assert((cr as u32) as u8 == cr) by (bit_vector);
    assert((er as u32) as u8 == er) by (bit_vector);
    assert((t as u32) as u8 == t) by (bit_vector);
    assert((u as u32) as u8 == u) by (bit_vector);
    assert(b[4] == le_u32(cr as u32)[0]);
    assert(b[8] == le_u32(t as u32)[0]);
    assert(b[12] == le_u32(u as u32)[0]);
    assert(b[16] == le_u32(er as u32)[0]);
    lemma_i32_roundtrip(c.x);
    lemma_i32_roundtrip(c.y);
    lemma_i32_roundtrip(c.z);
    lemma_i32_roundtrip(c.rx);
    lemma_i32_roundtrip(c.ry);
    lemma_i32_roundtrip(c.rz);
    assert(b.subrange(20, 24) =~= le_i32(c.x));
    assert(b.subrange(24, 28) =~= le_i32(c.y));
    assert(b.subrange(28, 32) =~= le_i32(c.z));
    assert(b.subrange(32, 36) =~= le_i32(c.rx));
    assert(b.subrange(36, 40) =~= le_i32(c.ry));
    assert(b.subrange(40, 44) =~= le_i32(c.rz));
    assert(cartesian_of_bytes(b) == c);
}

/// A pulse position with at least six joints reads back from its own bytes
/// to the same joints.
pub proof fn law_pulse_position_roundtrip(joints: Seq<i32>, decoded: Seq<i32>)
    ensures
        joints.len() >= 6 ==> Position::decodable(
            le_u32(0) + le_u32(0) + le_u32(0) + le_u32(0) + le_u32(0) + i32s_bytes(joints),
        ),
        pulse_joints_of_bytes(
            le_u32(0) + le_u32(0) + le_u32(0) + le_u32(0) + le_u32(0) + i32s_bytes(joints),
            decoded,
        ) ==> decoded == joints,
{
    let head = le_u32(0) + le_u32(0) + le_u32(0) + le_u32(0) + le_u32(0);
    let p = head + i32s_bytes(joints);
    let f = |v: i32| le_i32(v);
    lemma_flatten_map_fixed(joints, f, 4);
    lemma_u32_roundtrip(0);
    assert(p.subrange(0, 4) =~= le_u32(0));
    if pulse_joints_of_bytes(p, decoded) {
        assert forall|k: int| 0 <= k < joints.len() implies decoded[k] == joints[k] by {
            let part = i32s_bytes(joints).subrange(k * 4, k * 4 + 4);
            assert(part == f(joints[k]));
            lemma_i32_roundtrip(joints[k]);
            assert(p[20 + 4 * k] == part[0]);
            assert(p[20 + 4 * k + 1] == part[1]);
            assert(p[20 + 4 * k + 2] == part[2]);
            assert(p[20 + 4 * k + 3] == part[3]);
        }
        assert(decoded =~= joints);
    }
}

} // verus!
