//! Robot status (command 0x72): two 16-bit words of status flags.

use crate::encoding::TextEncoding;
use crate::error::ProtocolError;
use crate::payload::payload_trait::HsesPayload;
use crate::wire::{le_u16, lemma_u16_roundtrip, push_u16_le, read_u16_le, u16_at};
use vstd::prelude::*;

verus! {

/// Status data 1: operation mode and play state flags.
#[derive(Debug, Clone, Copy, PartialEq, Eq)]
pub struct StatusData1 {
    pub step: bool,
    pub one_cycle: bool,
    pub continuous: bool,
    pub running: bool,
    pub speed_limited: bool,
    pub teach: bool,
    pub play: bool,
    pub remote: bool,
}

/// Status data 2: hold, alarm, error and servo flags.
#[derive(Debug, Clone, Copy, PartialEq, Eq)]
pub struct StatusData2 {
    pub teach_pendant_hold: bool,
    pub external_hold: bool,
    pub command_hold: bool,
    pub alarm: bool,
    pub error: bool,
    pub servo_on: bool,
}

/// Robot status: both status words.
#[derive(Debug, Clone, Copy, PartialEq, Eq)]
pub struct Status {
    pub data1: StatusData1,
    pub data2: StatusData2,
}

/// `bit` when `flag` holds, 0 otherwise.
pub open spec fn flag_bit(flag: bool, bit: u16) -> u16 {
    if flag {
        bit
    } else {
        0
    }
}

/// The status word of data 1: bits 0-7 are step, one cycle, continuous,
/// running, speed limited, teach, play and remote.
pub open spec fn data1_word(d: StatusData1) -> u16 {
    flag_bit(d.step, 0x01) | flag_bit(d.one_cycle, 0x02) | flag_bit(d.continuous, 0x04) | flag_bit(
        d.running,
        0x08,
    ) | flag_bit(d.speed_limited, 0x10) | flag_bit(d.teach, 0x20) | flag_bit(d.play, 0x40)
        | flag_bit(d.remote, 0x80)
}

/// The status word of data 2: bits 1-6 are teach pendant hold, external
/// hold, command hold, alarm, error and servo on.
pub open spec fn data2_word(d: StatusData2) -> u16 {
    flag_bit(d.teach_pendant_hold, 0x02) | flag_bit(d.external_hold, 0x04) | flag_bit(
        d.command_hold,
        0x08,
    ) | flag_bit(d.alarm, 0x10) | flag_bit(d.error, 0x20) | flag_bit(d.servo_on, 0x40)
}

/// The data 1 flags that a status word holds.
pub open spec fn data1_of_word(w: u16) -> StatusData1 {
    StatusData1 {
        step: w & 0x01 != 0,
        one_cycle: w & 0x02 != 0,
        continuous: w & 0x04 != 0,
        running: w & 0x08 != 0,
        speed_limited: w & 0x10 != 0,
        teach: w & 0x20 != 0,
        play: w & 0x40 != 0,
        remote: w & 0x80 != 0,
    }
}

/// The data 2 flags that a status word holds.
pub open spec fn data2_of_word(w: u16) -> StatusData2 {
    StatusData2 {
        teach_pendant_hold: w & 0x02 != 0,
        external_hold: w & 0x04 != 0,
        command_hold: w & 0x08 != 0,
        alarm: w & 0x10 != 0,
        error: w & 0x20 != 0,
        servo_on: w & 0x40 != 0,
    }
}

/// The flags read back from the word of data 1 are the same flags.
pub proof fn lemma_data1_word_roundtrip(d: StatusData1)
    ensures
        data1_of_word(data1_word(d)) == d,
{
    let (a, b, c, e, f, g, h, i) = (
        d.step,
        d.one_cycle,
        d.continuous,
        d.running,
        d.speed_limited,
        d.teach,
        d.play,
        d.remote,
    );
    let w = data1_word(d);
    assert((w & 0x01 != 0) == a) by (bit_vector)
        requires
            w == (if a { 0x01u16 } else { 0 }) | (if b { 0x02u16 } else { 0 }) | (if c {
                0x04u16
            } else {
                0
            }) | (if e { 0x08u16 } else { 0 }) | (if f { 0x10u16 } else { 0 }) | (if g {
                0x20u16
            } else {
                0
            }) | (if h { 0x40u16 } else { 0 }) | (if i { 0x80u16 } else { 0 }),
    ;
    assert((w & 0x02 != 0) == b && (w & 0x04 != 0) == c && (w & 0x08 != 0) == e && (w & 0x10
        != 0) == f && (w & 0x20 != 0) == g && (w & 0x40 != 0) == h && (w & 0x80 != 0) == i)
        by (bit_vector)
        requires
            w == (if a { 0x01u16 } else { 0 }) | (if b { 0x02u16 } else { 0 }) | (if c {
                0x04u16
            } else {
                0
            }) | (if e { 0x08u16 } else { 0 }) | (if f { 0x10u16 } else { 0 }) | (if g {
                0x20u16
            } else {
                0
            }) | (if h { 0x40u16 } else { 0 }) | (if i { 0x80u16 } else { 0 }),
    ;
}

/// The flags read back from the word of data 2 are the same flags.
pub proof fn lemma_data2_word_roundtrip(d: StatusData2)
    ensures
        data2_of_word(data2_word(d)) == d,
{
    let (b, c, e, f, g, h) = (
        d.teach_pendant_hold,
        d.external_hold,
        d.command_hold,
        d.alarm,
        d.error,
        d.servo_on,
    );
    let w = data2_word(d);
    assert((w & 0x02 != 0) == b && (w & 0x04 != 0) == c && (w & 0x08 != 0) == e && (w & 0x10
        != 0) == f && (w & 0x20 != 0) == g && (w & 0x40 != 0) == h) by (bit_vector)
        requires
            w == (if b { 0x02u16 } else { 0 }) | (if c { 0x04u16 } else { 0 }) | (if e {
                0x08u16
            } else {
                0
            }) | (if f { 0x10u16 } else { 0 }) | (if g { 0x20u16 } else { 0 }) | (if h {
                0x40u16
            } else {
                0
            }),
    ;
}

impl StatusData1 {
    /// The flags of the little-endian status word in the first two bytes;
    /// fewer bytes are an underflow.
    pub fn from_bytes(data: &[u8]) -> (r: Result<Self, ProtocolError>)
        ensures
            data@.len() < 2 ==> r matches Err(ProtocolError::Underflow),
            data@.len() >= 2 ==> r == Ok::<StatusData1, ProtocolError>(
                data1_of_word(u16_at(data@, 0)),
            ),
    {
        if data.len() < 2 {
            return Err(ProtocolError::Underflow);
        }
        let w = read_u16_le(data, 0);
        Ok(
            Self {
                step: (w & 0x0001) != 0,
                one_cycle: (w & 0x0002) != 0,
                continuous: (w & 0x0004) != 0,
                running: (w & 0x0008) != 0,
                speed_limited: (w & 0x0010) != 0,
                teach: (w & 0x0020) != 0,
                play: (w & 0x0040) != 0,
                remote: (w & 0x0080) != 0,
            },
        )
    }

    /// The status word of these flags.
    pub fn to_word(&self) -> (r: u16)
        ensures
            r == data1_word(*self),
    {
        (if self.step { 0x0001u16 } else { 0 }) | (if self.one_cycle { 0x0002u16 } else { 0 }) | (
        if self.continuous {
            0x0004u16
        } else {
            0
        }) | (if self.running { 0x0008u16 } else { 0 }) | (if self.speed_limited {
            0x0010u16
        } else {
            0
        }) | (if self.teach { 0x0020u16 } else { 0 }) | (if self.play { 0x0040u16 } else { 0 })
            | (if self.remote { 0x0080u16 } else { 0 })
    }
}

impl StatusData2 {
    /// The flags of the little-endian status word in the first two bytes;
    /// fewer bytes are an underflow.
    pub fn from_bytes(data: &[u8]) -> (r: Result<Self, ProtocolError>)
        ensures
            data@.len() < 2 ==> r matches Err(ProtocolError::Underflow),
            data@.len() >= 2 ==> r == Ok::<StatusData2, ProtocolError>(
                data2_of_word(u16_at(data@, 0)),
            ),
    {
        if data.len() < 2 {
            return Err(ProtocolError::Underflow);
        }
        let w = read_u16_le(data, 0);
        Ok(
            Self {
                teach_pendant_hold: (w & 0x0002) != 0,
                external_hold: (w & 0x0004) != 0,
                command_hold: (w & 0x0008) != 0,
                alarm: (w & 0x0010) != 0,
                error: (w & 0x0020) != 0,
                servo_on: (w & 0x0040) != 0,
            },
        )
    }

    /// The status word of these flags.
    pub fn to_word(&self) -> (r: u16)
        ensures
            r == data2_word(*self),
    {
        (if self.teach_pendant_hold { 0x0002u16 } else { 0 }) | (if self.external_hold {
            0x0004u16
        } else {
            0
        }) | (if self.command_hold { 0x0008u16 } else { 0 }) | (if self.alarm {
            0x0010u16
        } else {
            0
        }) | (if self.error { 0x0020u16 } else { 0 }) | (if self.servo_on { 0x0040u16 } else { 0 })
    }
}

impl Status {
    /// Both status words from the first four bytes; fewer are an underflow.
    pub fn from_bytes(data: &[u8]) -> (r: Result<Self, ProtocolError>)
        ensures
            data@.len() < 4 ==> r matches Err(ProtocolError::Underflow),
            data@.len() >= 4 ==> r == Ok::<Status, ProtocolError>(
                Status {
                    data1: data1_of_word(u16_at(data@, 0)),
                    data2: data2_of_word(u16_at(data@, 2)),
                },
            ),
    {
        if data.len() < 4 {
            return Err(ProtocolError::Underflow);
        }
        let data1 = StatusData1::from_bytes(vstd::slice::slice_subrange(data, 0, 2))?;
        let data2 = StatusData2::from_bytes(vstd::slice::slice_subrange(data, 2, 4))?;
        Ok(Self { data1, data2 })
    }

    /// A status from its two words.
    pub fn new(data1: StatusData1, data2: StatusData2) -> (r: Self)
        ensures
            r == (Status { data1, data2 }),
    {
        Self { data1, data2 }
    }

    /// Whether a job is running.
    pub fn is_running(&self) -> (r: bool)
        ensures
            r == self.data1.running,
    {
        self.data1.running
    }

    /// Whether the servo power is on.
    pub fn is_servo_on(&self) -> (r: bool)
        ensures
            r == self.data2.servo_on,
    {
        self.data2.servo_on
    }

    /// Whether an alarm is raised.
    pub fn has_alarm(&self) -> (r: bool)
        ensures
            r == self.data2.alarm,
    {
        self.data2.alarm
    }

    /// Whether the controller is in teach mode.
    pub fn is_teach_mode(&self) -> (r: bool)
        ensures
            r == self.data1.teach,
    {
        self.data1.teach
    }

    /// Whether the controller is in play mode.
    pub fn is_play_mode(&self) -> (r: bool)
        ensures
            r == self.data1.play,
    {
        self.data1.play
    }

    /// Whether the controller is in remote mode.
    pub fn is_remote_mode(&self) -> (r: bool)
        ensures
            r == self.data1.remote,
    {
        self.data1.remote
    }

    /// Whether an error is raised.
    pub fn has_error(&self) -> (r: bool)
        ensures
            r == self.data2.error,
    {
        self.data2.error
    }

    /// The command that reads a status (0x72).
    pub fn command_id() -> (r: u16)
        ensures
            r == 0x72,
    {
        0x72
    }
}

impl HsesPayload for StatusData1 {
    open spec fn serializable(&self) -> bool {
        true
    }

    open spec fn payload_bytes(&self, encoding: TextEncoding) -> Seq<u8> {
        le_u16(data1_word(*self))
    }

    open spec fn decodable(data: Seq<u8>) -> bool {
        data.len() >= 2
    }

    open spec fn decodes_to(data: Seq<u8>, encoding: TextEncoding, v: Self) -> bool {
        v == data1_of_word(u16_at(data, 0))
    }

    /// The status word, little-endian.
    fn serialize(&self, encoding: TextEncoding) -> (r: Result<Vec<u8>, ProtocolError>) {
        let mut v = Vec::new();
        push_u16_le(&mut v, self.to_word());
        assert(v@ =~= le_u16(data1_word(*self)));
        Ok(v)
    }

    /// The flags of the first two bytes; fewer are an underflow.
    fn deserialize(data: &[u8], encoding: TextEncoding) -> (r: Result<Self, ProtocolError>)
        ensures
            data@.len() < 2 ==> r matches Err(ProtocolError::Underflow),
    {
        Self::from_bytes(data)
    }
}

impl HsesPayload for StatusData2 {
    open spec fn serializable(&self) -> bool {
        true
    }

    open spec fn payload_bytes(&self, encoding: TextEncoding) -> Seq<u8> {
        le_u16(data2_word(*self))
    }

    open spec fn decodable(data: Seq<u8>) -> bool {
        data.len() >= 2
    }

    open spec fn decodes_to(data: Seq<u8>, encoding: TextEncoding, v: Self) -> bool {
        v == data2_of_word(u16_at(data, 0))
    }

    /// The status word, little-endian.
    fn serialize(&self, encoding: TextEncoding) -> (r: Result<Vec<u8>, ProtocolError>) {
        let mut v = Vec::new();
        push_u16_le(&mut v, self.to_word());
        assert(v@ =~= le_u16(data2_word(*self)));
        Ok(v)
    }

    /// The flags of the first two bytes; fewer are an underflow.
    fn deserialize(data: &[u8], encoding: TextEncoding) -> (r: Result<Self, ProtocolError>)
        ensures
            data@.len() < 2 ==> r matches Err(ProtocolError::Underflow),
    {
        Self::from_bytes(data)
    }
}

impl HsesPayload for Status {
    open spec fn serializable(&self) -> bool {
        true
    }

    open spec fn payload_bytes(&self, encoding: TextEncoding) -> Seq<u8> {
        le_u16(data1_word(self.data1)) + le_u16(data2_word(self.data2))
    }

    open spec fn decodable(data: Seq<u8>) -> bool {
        data.len() >= 4
    }

    open spec fn decodes_to(data: Seq<u8>, encoding: TextEncoding, v: Self) -> bool {
        v == (Status { data1: data1_of_word(u16_at(data, 0)), data2: data2_of_word(u16_at(data, 2)) })
    }

    /// Both status words, little-endian, data 1 first.
    fn serialize(&self, encoding: TextEncoding) -> (r: Result<Vec<u8>, ProtocolError>) {
        let mut v = Vec::new();
        push_u16_le(&mut v, self.data1.to_word());
        push_u16_le(&mut v, self.data2.to_word());
        assert(v@ =~= le_u16(data1_word(self.data1)) + le_u16(data2_word(self.data2)));
        Ok(v)
    }

    /// Both words from the first four bytes; fewer are an underflow.
    fn deserialize(data: &[u8], encoding: TextEncoding) -> (r: Result<Self, ProtocolError>)
        ensures
            data@.len() < 4 ==> r matches Err(ProtocolError::Underflow),
    {
        Self::from_bytes(data)
    }
}

/// A status carried as a payload of its own, with the status' bytes.
#[derive(Debug, Clone, Copy, PartialEq, Eq)]
pub struct StatusWrapper(pub Status);

impl StatusWrapper {
    /// The command that reads a status (0x72).
    pub fn command_id() -> (r: u16)
        ensures
            r == 0x72,
    {
        0x72
    }
}

impl HsesPayload for StatusWrapper {
    open spec fn serializable(&self) -> bool {
        true
    }

    open spec fn payload_bytes(&self, encoding: TextEncoding) -> Seq<u8> {
        self.0.payload_bytes(encoding)
    }

    open spec fn decodable(data: Seq<u8>) -> bool {
        <Status as HsesPayload>::decodable(data)
    }

    open spec fn decodes_to(data: Seq<u8>, encoding: TextEncoding, v: Self) -> bool {
        <Status as HsesPayload>::decodes_to(data, encoding, v.0)
    }

    /// The bytes of the status.
    fn serialize(&self, encoding: TextEncoding) -> (r: Result<Vec<u8>, ProtocolError>) {
        self.0.serialize(encoding)
    }

    /// The status of the first four bytes; fewer are an underflow.
    fn deserialize(data: &[u8], encoding: TextEncoding) -> (r: Result<Self, ProtocolError>)
        ensures
            data@.len() < 4 ==> r matches Err(ProtocolError::Underflow),
    {
        let status = Status::from_bytes(data)?;
        Ok(StatusWrapper(status))
    }
}

impl From<StatusWrapper> for Status {
    fn from(wrapper: StatusWrapper) -> (r: Self) {
        wrapper.0
    }
}

impl vstd::std_specs::convert::FromSpecImpl<StatusWrapper> for Status {
    open spec fn obeys_from_spec() -> bool {
        true
    }

    open spec fn from_spec(v: StatusWrapper) -> Self {
        v.0
    }
}

/// A status read back from its own bytes is the same status.
pub proof fn law_status_roundtrip(s: Status, encoding: TextEncoding)
    ensures
        <Status as HsesPayload>::decodable(s.payload_bytes(encoding)),
        <Status as HsesPayload>::decodes_to(s.payload_bytes(encoding), encoding, s),
        forall|v: Status|
            <Status as HsesPayload>::decodes_to(s.payload_bytes(encoding), encoding, v) ==> v == s,
{
    let b = s.payload_bytes(encoding);
    lemma_u16_roundtrip(data1_word(s.data1));
    lemma_u16_roundtrip(data2_word(s.data2));
    lemma_data1_word_roundtrip(s.data1);
    lemma_data2_word_roundtrip(s.data2);
    assert(b.subrange(2, 4) =~= le_u16(data2_word(s.data2)));
    assert(u16_at(b, 0) == data1_word(s.data1));
    assert(u16_at(b, 2) == u16_at(le_u16(data2_word(s.data2)), 0));
}

} // verus!
