//! Executing job information (command 0x73).

use crate::encoding::TextEncoding;
use crate::error::ProtocolError;
use crate::payload::alarm::{field_text, push_text_field, read_text_field, text_field};
use crate::payload::payload_trait::HsesPayload;
use crate::wire::{le_u32, lemma_u32_roundtrip, push_u32_le, read_u32_le, u32_at};
use vstd::prelude::*;

pub mod test_job_info;

verus! {

/// The job a task is executing: its name, line and step, and the speed
/// override in percent.
#[derive(Debug, Clone)]
pub struct ExecutingJobInfo {
    pub job_name: String,
    pub line_number: u32,
    pub step_number: u32,
    pub speed_override_value: u32,
}

/// The speed override on the wire, in units of 0.01 %.
pub open spec fn raw_speed(percent: u32) -> int {
    percent * 100
}

/// Whether the speed override, in units of 0.01 %, fits in 32 bits.
pub open spec fn speed_fits(j: ExecutingJobInfo) -> bool {
    raw_speed(j.speed_override_value) <= u32::MAX
}

/// The bytes of one attribute (1 name, 2 line, 3 step, 4 speed override).
pub open spec fn job_attribute_bytes(j: ExecutingJobInfo, attribute: u8, encoding: TextEncoding) -> Seq<u8> {
    if attribute == 1 {
        text_field(j.job_name@, 32, encoding)
    } else if attribute == 2 {
        le_u32(j.line_number)
    } else if attribute == 3 {
        le_u32(j.step_number)
    } else {
        le_u32(raw_speed(j.speed_override_value) as u32)
    }
}

/// The 44 bytes of all attributes: the name (32 bytes), line, step and the
/// speed override in units of 0.01 % (4 bytes each).
pub open spec fn job_info_bytes(j: ExecutingJobInfo, encoding: TextEncoding) -> Seq<u8> {
    text_field(j.job_name@, 32, encoding) + le_u32(j.line_number) + le_u32(j.step_number) + le_u32(
        raw_speed(j.speed_override_value) as u32,
    )
}

/// Whether `j` is what 44 or more bytes hold: the name in bytes 0-31, line,
/// step, and the speed override in units of 0.01 %, turned into percent.
pub open spec fn job_info_of_bytes(data: Seq<u8>, encoding: TextEncoding, j: ExecutingJobInfo) -> bool {
    &&& j.job_name@ == field_text(data.subrange(0, 32), encoding)
    &&& j.line_number == u32_at(data, 32)
    &&& j.step_number == u32_at(data, 36)
    &&& j.speed_override_value == u32_at(data, 40) / 100
}

/// The number of bytes that one attribute needs (attributes 1-4), or the
/// whole record otherwise.
pub open spec fn attribute_len(attribute: u8) -> int {
    if attribute == 1 {
        32
    } else if 2 <= attribute <= 4 {
        4
    } else {
        44
    }
}

/// The message that refuses too few bytes for an attribute: the field it
/// names, or the whole record for any other attribute.
pub open spec fn attribute_shortfall(attribute: u8) -> Seq<char> {
    if attribute == 1 {
        "Insufficient data length for job name"@
    } else if attribute == 2 {
        "Insufficient data length for line number"@
    } else if attribute == 3 {
        "Insufficient data length for step number"@
    } else if attribute == 4 {
        "Insufficient data length for speed override value"@
    } else {
        "Insufficient data length"@
    }
}

/// Whether `j` is what `data` holds for one attribute: that field read from
/// the start of the data, every other field empty or zero; any other
/// attribute reads the whole record.
pub open spec fn job_attribute_of_bytes(
    data: Seq<u8>,
    attribute: u8,
    encoding: TextEncoding,
    j: ExecutingJobInfo,
) -> bool {
    if 1 <= attribute <= 4 {
        &&& j.job_name@ == (if attribute == 1 {
            field_text(data.subrange(0, 32), encoding)
        } else {
            Seq::<char>::empty()
        })
        &&& j.line_number == (if attribute == 2 {
            u32_at(data, 0)
        } else {
            0
        })
        &&& j.step_number == (if attribute == 3 {
            u32_at(data, 0)
        } else {
            0
        })
        &&& j.speed_override_value == (if attribute == 4 {
            u32_at(data, 0) / 100
        } else {
            0
        })
    } else {
        job_info_of_bytes(data, encoding, j)
    }
}

impl ExecutingJobInfo {
    /// The command that reads executing job information (0x73).
    pub fn command_id() -> (r: u16)
        ensures
            r == 0x73,
    {
        0x73
    }

    /// Job information from its four fields.
    pub fn new(job_name: String, line_number: u32, step_number: u32, speed_override_value: u32) -> (r: Self)
        ensures
            r.job_name@ == job_name@,
            r.line_number == line_number,
            r.step_number == step_number,
            r.speed_override_value == speed_override_value,
    {
        Self { job_name, line_number, step_number, speed_override_value }
    }

    /// The bytes of one attribute (1-4); any other attribute is invalid.
    pub fn serialize(&self, attribute: u8, encoding: TextEncoding) -> (r: Result<Vec<u8>, ProtocolError>)
        requires
            attribute == 4 ==> speed_fits(*self),
        ensures
            1 <= attribute <= 4 ==> (r matches Ok(bytes) && bytes@ == job_attribute_bytes(
                *self,
                attribute,
                encoding,
            )),
            !(1 <= attribute <= 4) ==> r matches Err(ProtocolError::InvalidAttribute),
    {
        let mut data = Vec::new();
        if attribute == 1 {
            push_text_field(&mut data, &self.job_name, 32, encoding);
        } else if attribute == 2 {
            push_u32_le(&mut data, self.line_number);
        } else if attribute == 3 {
            push_u32_le(&mut data, self.step_number);
        } else if attribute == 4 {
            push_u32_le(&mut data, self.speed_override_value * 100);
        } else {
            return Err(ProtocolError::InvalidAttribute);
        }
        assert(data@ =~= job_attribute_bytes(*self, attribute, encoding));
        Ok(data)
    }

    /// The 44 bytes of all attributes.
    pub fn serialize_complete(&self, encoding: TextEncoding) -> (r: Result<Vec<u8>, ProtocolError>)
        requires
            speed_fits(*self),
        ensures
            r matches Ok(bytes) && bytes@ == job_info_bytes(*self, encoding),
    {
        let mut data = Vec::new();
        push_text_field(&mut data, &self.job_name, 32, encoding);
        push_u32_le(&mut data, self.line_number);
        push_u32_le(&mut data, self.step_number);
        push_u32_le(&mut data, self.speed_override_value * 100);
        assert(data@ =~= job_info_bytes(*self, encoding));
        Ok(data)
    }

    /// Reads job information from at least 44 bytes; fewer are a
    /// deserialization error.
    pub fn deserialize(data: &[u8], encoding: TextEncoding) -> (r: Result<Self, ProtocolError>)
        ensures
            data@.len() < 44 ==> (r matches Err(ProtocolError::Deserialization(m)) && m@
                == "Insufficient data length"@),
            data@.len() >= 44 ==> (r matches Ok(j) && job_info_of_bytes(data@, encoding, j)),
    {
        if data.len() < 44 {
            return Err(ProtocolError::Deserialization("Insufficient data length".to_string()));
        }
        let job_name = read_text_field(data, 0, 32, encoding);
        let line_number = read_u32_le(data, 32);
        let step_number = read_u32_le(data, 36);
        let speed_override_value = read_u32_le(data, 40) / 100;
        Ok(Self { job_name, line_number, step_number, speed_override_value })
    }

    /// Reads one attribute (1-4) from the start of `data`, leaving the other
    /// fields empty or zero; any other attribute reads the whole record.
    /// Too few bytes are a deserialization error.
    pub fn deserialize_attribute(data: &[u8], attribute: u8, encoding: TextEncoding) -> (r: Result<
        Self,
        ProtocolError,
    >)
        ensures
            data@.len() < attribute_len(attribute) ==> (r matches Err(ProtocolError::Deserialization(m)) && m@
                == attribute_shortfall(attribute)),
            data@.len() >= attribute_len(attribute) ==> (r matches Ok(j) && job_attribute_of_bytes(
                data@,
                attribute,
                encoding,
                j,
            )),
    {
        if attribute == 1 {
            if data.len() < 32 {
                return Err(
                    ProtocolError::Deserialization("Insufficient data length for job name".to_string()),
                );
            }
            let job_name = read_text_field(data, 0, 32, encoding);
            Ok(Self { job_name, line_number: 0, step_number: 0, speed_override_value: 0 })
        } else if attribute == 2 {
            if data.len() < 4 {
                return Err(
                    ProtocolError::Deserialization("Insufficient data length for line number".to_string()),
                );
            }
            let line_number = read_u32_le(data, 0);
            Ok(Self { job_name: String::new(), line_number, step_number: 0, speed_override_value: 0 })
        } else if attribute == 3 {
            if data.len() < 4 {
                return Err(
                    ProtocolError::Deserialization("Insufficient data length for step number".to_string()),
                );
            }
            let step_number = read_u32_le(data, 0);
            Ok(Self { job_name: String::new(), line_number: 0, step_number, speed_override_value: 0 })
        } else if attribute == 4 {
            if data.len() < 4 {
                return Err(
                    ProtocolError::Deserialization(
                        "Insufficient data length for speed override value".to_string(),
                    ),
                );
            }
            let speed_override_value = read_u32_le(data, 0) / 100;
            Ok(Self { job_name: String::new(), line_number: 0, step_number: 0, speed_override_value })
        } else {
            Self::deserialize(data, encoding)
        }
    }
}

/// Which part of the job information a request reads.
#[derive(Debug, Clone, Copy, PartialEq, Eq, Structural)]
pub enum JobInfoAttribute {
    All,
    JobName,
    LineNumber,
    StepNumber,
    SpeedOverrideValue,
}

impl JobInfoAttribute {
    /// The attribute number: 0 all, 1 name, 2 line, 3 step, 4 speed override.
    pub open spec fn code(self) -> u8 {
        match self {
            JobInfoAttribute::All => 0,
            JobInfoAttribute::JobName => 1,
            JobInfoAttribute::LineNumber => 2,
            JobInfoAttribute::StepNumber => 3,
            JobInfoAttribute::SpeedOverrideValue => 4,
        }
    }
}

/// The attribute a number names; numbers other than 1-4 name all.
pub open spec fn job_info_attribute_of(value: u8) -> JobInfoAttribute {
    if value == 1 {
        JobInfoAttribute::JobName
    } else if value == 2 {
        JobInfoAttribute::LineNumber
    } else if value == 3 {
        JobInfoAttribute::StepNumber
    } else if value == 4 {
        JobInfoAttribute::SpeedOverrideValue
    } else {
        JobInfoAttribute::All
    }
}

impl From<u8> for JobInfoAttribute {
    fn from(value: u8) -> (r: Self) {
        if value == 1 {
            JobInfoAttribute::JobName
        } else if value == 2 {
            JobInfoAttribute::LineNumber
        } else if value == 3 {
            JobInfoAttribute::StepNumber
        } else if value == 4 {
            JobInfoAttribute::SpeedOverrideValue
        } else {
            JobInfoAttribute::All
        }
    }
}

impl vstd::std_specs::convert::FromSpecImpl<u8> for JobInfoAttribute {
    open spec fn obeys_from_spec() -> bool {
        true
    }

    open spec fn from_spec(v: u8) -> Self {
        job_info_attribute_of(v)
    }
}

impl Default for ExecutingJobInfo {
    /// No job: name "NO_JOB", line and step 0, speed override 100 %.
    fn default() -> (r: Self)
        ensures
            r.job_name@ == "NO_JOB"@,
            r.line_number == 0,
            r.step_number == 0,
            r.speed_override_value == 100,
    {
        Self { job_name: "NO_JOB".to_string(), line_number: 0, step_number: 0, speed_override_value: 100 }
    }
}

impl HsesPayload for ExecutingJobInfo {
    open spec fn serializable(&self) -> bool {
        speed_fits(*self)
    }

    open spec fn payload_bytes(&self, encoding: TextEncoding) -> Seq<u8> {
        job_info_bytes(*self, encoding)
    }

    open spec fn decodable(data: Seq<u8>) -> bool {
        data.len() >= 44
    }

    open spec fn decodes_to(data: Seq<u8>, encoding: TextEncoding, v: Self) -> bool {
        job_info_of_bytes(data, encoding, v)
    }

    /// All attributes.
    fn serialize(&self, encoding: TextEncoding) -> (r: Result<Vec<u8>, ProtocolError>) {
        self.serialize_complete(encoding)
    }

    /// All attributes.
    fn deserialize(data: &[u8], encoding: TextEncoding) -> (r: Result<Self, ProtocolError>) {
        ExecutingJobInfo::deserialize(data, encoding)
    }
}

/// Job information read back from its own 44 bytes has the same line, step
/// and speed override, and the same name when the name has no NUL
/// characters, fits its 32 bytes and is ASCII, or, with the UTF-8 encoding,
/// is any text whose bytes do not start with a byte order mark.
pub proof fn law_job_info_roundtrip(j: ExecutingJobInfo, encoding: TextEncoding, k: ExecutingJobInfo)
    requires
        speed_fits(j),
        job_info_of_bytes(job_info_bytes(j, encoding), encoding, k),
    ensures
        job_info_bytes(j, encoding).len() == 44,
        k.line_number == j.line_number,
        k.step_number == j.step_number,
        k.speed_override_value == j.speed_override_value,
        vstd::utf8::is_ascii_chars(j.job_name@) && j.job_name@.len() <= 32 && (forall|i: int|
            0 <= i < j.job_name@.len() ==> j.job_name@[i] != '\0') ==> k.job_name@ == j.job_name@,
        encoding is Utf8 && vstd::utf8::encode_utf8(j.job_name@).len() <= 32
            && !crate::encoding_utils::starts_with_bom(vstd::utf8::encode_utf8(j.job_name@)) && (forall|i: int|
            0 <= i < j.job_name@.len() ==> j.job_name@[i] != '\0') ==> k.job_name@ == j.job_name@,
{
    let t = text_field(j.job_name@, 32, encoding);
    let raw = raw_speed(j.speed_override_value) as u32;
    let s = job_info_bytes(j, encoding);
    assert(s.subrange(0, 32) =~= t);
    lemma_u32_roundtrip(j.line_number);
    lemma_u32_roundtrip(j.step_number);
    lemma_u32_roundtrip(raw);
    assert(s.subrange(32, 36) =~= le_u32(j.line_number));
    assert(s.subrange(36, 40) =~= le_u32(j.step_number));
    assert(s.subrange(40, 44) =~= le_u32(raw));
    assert(u32_at(s, 40) == raw);
    assert(raw == j.speed_override_value * 100);
    assert((j.speed_override_value * 100) / 100 == j.speed_override_value) by (nonlinear_arith);
    if vstd::utf8::is_ascii_chars(j.job_name@) && j.job_name@.len() <= 32 && (forall|i: int|
        0 <= i < j.job_name@.len() ==> j.job_name@[i] != '\0') {
        crate::payload::alarm::lemma_text_field_roundtrip(j.job_name@, 32, encoding);
    }
    if encoding is Utf8 && vstd::utf8::encode_utf8(j.job_name@).len() <= 32
        && !crate::encoding_utils::starts_with_bom(vstd::utf8::encode_utf8(j.job_name@)) && (forall|i: int|
        0 <= i < j.job_name@.len() ==> j.job_name@[i] != '\0') {
        crate::payload::alarm::lemma_text_field_utf8_roundtrip(j.job_name@, 32);
    }
}

/// Each attribute (1-4) of job information read alone is exactly its field
/// in the complete 44-byte record (name 0-31, line 32-35, step 36-39, speed
/// override 40-43), and reads back as the value it names: the line and step
/// numbers as 32-bit integers, the speed override in 0.01 % turned back into
/// percent when it fits, and a name that fits its field as that name.
pub proof fn law_job_attribute_is_its_field(j: ExecutingJobInfo, encoding: TextEncoding)
    ensures
        job_attribute_bytes(j, 1, encoding) == job_info_bytes(j, encoding).subrange(0, 32),
        job_attribute_bytes(j, 2, encoding) == job_info_bytes(j, encoding).subrange(32, 36),
        job_attribute_bytes(j, 3, encoding) == job_info_bytes(j, encoding).subrange(36, 40),
        job_attribute_bytes(j, 4, encoding) == job_info_bytes(j, encoding).subrange(40, 44),
        u32_at(job_attribute_bytes(j, 2, encoding), 0) == j.line_number,
        u32_at(job_attribute_bytes(j, 3, encoding), 0) == j.step_number,
        speed_fits(j) ==> u32_at(job_attribute_bytes(j, 4, encoding), 0) / 100 == j.speed_override_value,
        crate::payload::alarm::ascii_fits(j.job_name@, 32) ==> field_text(
            job_attribute_bytes(j, 1, encoding),
            encoding,
        ) == j.job_name@,
{
    let t = text_field(j.job_name@, 32, encoding);
    let raw = raw_speed(j.speed_override_value) as u32;
    let s = job_info_bytes(j, encoding);
    assert(s =~= t + le_u32(j.line_number) + le_u32(j.step_number) + le_u32(raw));
    assert(s.subrange(0, 32) =~= t);
    assert(s.subrange(32, 36) =~= le_u32(j.line_number));
    assert(s.subrange(36, 40) =~= le_u32(j.step_number));
    assert(s.subrange(40, 44) =~= le_u32(raw));
    lemma_u32_roundtrip(j.line_number);
    lemma_u32_roundtrip(j.step_number);
    lemma_u32_roundtrip(raw);
    if speed_fits(j) {
        assert(raw == j.speed_override_value * 100);
        assert((j.speed_override_value * 100) / 100 == j.speed_override_value) by (nonlinear_arith);
    }
    if crate::payload::alarm::ascii_fits(j.job_name@, 32) {
        crate::payload::alarm::lemma_text_field_roundtrip(j.job_name@, 32, encoding);
    }
}

} // verus!
