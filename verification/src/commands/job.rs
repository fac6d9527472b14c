//! Job commands: read executing job information (0x73), start a job (0x86)
//! and select a job (0x87).

use crate::commands::command_trait::Command;
use crate::encoding::TextEncoding;
use crate::encoding_utils::{encode_string, spec_encode_string};
use crate::error::ProtocolError;
use crate::payload::job::ExecutingJobInfo;
use crate::wire::{fit_to_width, le_u32, push_fixed_width, push_u32_le};
use vstd::prelude::*;

verus! {

/// The task whose job a request reads: the master task or sub task 1-5.
#[derive(Debug, Clone, Copy, PartialEq, Eq, Structural)]
pub enum TaskType {
    MasterTask,
    SubTask1,
    SubTask2,
    SubTask3,
    SubTask4,
    SubTask5,
    Invalid,
}

/// The task of an instance: 1 master, 2-6 sub tasks 1-5, anything else invalid.
pub open spec fn task_type_of(instance: u16) -> TaskType {
    if instance == 1 {
        TaskType::MasterTask
    } else if instance == 2 {
        TaskType::SubTask1
    } else if instance == 3 {
        TaskType::SubTask2
    } else if instance == 4 {
        TaskType::SubTask3
    } else if instance == 5 {
        TaskType::SubTask4
    } else if instance == 6 {
        TaskType::SubTask5
    } else {
        TaskType::Invalid
    }
}

/// Reads the executing job information of a task (command 0x73).
#[derive(Debug, Clone)]
pub struct ReadExecutingJobInfo {
    pub instance: u16,
    pub attribute: u8,
}

impl ReadExecutingJobInfo {
    /// A read of `attribute` (0 all, 1-4 one field) of task `instance`.
    pub fn new(instance: u16, attribute: u8) -> (r: Self)
        ensures
            r.instance == instance,
            r.attribute == attribute,
    {
        Self { instance, attribute }
    }

    /// Whether the instance names a task (1-6).
    pub fn is_valid_instance(&self) -> (r: bool)
        ensures
            r == (1 <= self.instance <= 6),
    {
        1 <= self.instance && self.instance <= 6
    }

    /// The task that the instance names.
    pub fn get_task_type(&self) -> (r: TaskType)
        ensures
            r == task_type_of(self.instance),
    {
        let i = self.instance;
        if i == 1 {
            TaskType::MasterTask
        } else if i == 2 {
            TaskType::SubTask1
        } else if i == 3 {
            TaskType::SubTask2
        } else if i == 4 {
            TaskType::SubTask3
        } else if i == 5 {
            TaskType::SubTask4
        } else if i == 6 {
            TaskType::SubTask5
        } else {
            TaskType::Invalid
        }
    }

    /// Whether the attribute is 0-4.
    pub fn is_valid_attribute(&self) -> (r: bool)
        ensures
            r == (self.attribute <= 4),
    {
        self.attribute <= 4
    }
}

impl Command for ReadExecutingJobInfo {
    type Response = ExecutingJobInfo;

    open spec fn command_id_spec() -> u16 {
        0x73
    }

    open spec fn instance_spec(&self) -> u16 {
        self.instance
    }

    open spec fn attribute_spec(&self) -> u8 {
        self.attribute
    }

    /// 0x01 (get all) for attribute 0, 0x0e (get single) otherwise.
    open spec fn service_spec(&self) -> u8 {
        if self.attribute == 0 {
            0x01
        } else {
            0x0e
        }
    }

    open spec fn serializable(&self) -> bool {
        true
    }

    open spec fn payload_spec(&self) -> Option<Seq<u8>> {
        Some(Seq::empty())
    }

    fn command_id() -> (r: u16) {
        0x73
    }

    fn serialize(&self) -> (r: Result<Vec<u8>, ProtocolError>) {
        Ok(Vec::new())
    }

    fn instance(&self) -> (r: u16) {
        self.instance
    }

    fn attribute(&self) -> (r: u8) {
        self.attribute
    }

    fn service(&self) -> (r: u8) {
        if self.attribute == 0 {
            0x01
        } else {
            0x0e
        }
    }
}

/// Starts the selected job (command 0x86).
#[derive(Debug, Clone)]
pub struct JobStartCommand;

impl JobStartCommand {
    /// The start request.
    pub fn new() -> (r: Self) {
        Self
    }
}

impl Default for JobStartCommand {
    fn default() -> (r: Self) {
        Self::new()
    }
}

impl Command for JobStartCommand {
    type Response = ();

    open spec fn command_id_spec() -> u16 {
        0x86
    }

    open spec fn instance_spec(&self) -> u16 {
        1
    }

    open spec fn attribute_spec(&self) -> u8 {
        1
    }

    open spec fn service_spec(&self) -> u8 {
        0x10
    }

    open spec fn serializable(&self) -> bool {
        true
    }

    /// A 32-bit 1.
    open spec fn payload_spec(&self) -> Option<Seq<u8>> {
        Some(seq![1u8, 0u8, 0u8, 0u8])
    }

    fn command_id() -> (r: u16) {
        0x86
    }

    fn serialize(&self) -> (r: Result<Vec<u8>, ProtocolError>) {
        let v: Vec<u8> = vec![1, 0, 0, 0];
        assert(v@ =~= seq![1u8, 0u8, 0u8, 0u8]);
        Ok(v)
    }

    fn instance(&self) -> (r: u16) {
        1
    }

    fn attribute(&self) -> (r: u8) {
        1
    }

    fn service(&self) -> (r: u8) {
        0x10
    }
}

/// Which job a select request sets: the job in execution, or the master
/// job of task 0-5.
#[derive(Debug, Clone, Copy, PartialEq, Eq, Structural)]
pub enum JobSelectType {
    InExecution,
    MasterTask0,
    MasterTask1,
    MasterTask2,
    MasterTask3,
    MasterTask4,
    MasterTask5,
}

impl JobSelectType {
    /// The instance number: 1 in execution, 10-15 master jobs of tasks 0-5.
    pub open spec fn code(self) -> u16 {
        match self {
            JobSelectType::InExecution => 1,
            JobSelectType::MasterTask0 => 10,
            JobSelectType::MasterTask1 => 11,
            JobSelectType::MasterTask2 => 12,
            JobSelectType::MasterTask3 => 13,
            JobSelectType::MasterTask4 => 14,
            JobSelectType::MasterTask5 => 15,
        }
    }

    /// The instance number.
    pub fn value(self) -> (r: u16)
        ensures
            r == self.code(),
    {
        match self {
            JobSelectType::InExecution => 1,
            JobSelectType::MasterTask0 => 10,
            JobSelectType::MasterTask1 => 11,
            JobSelectType::MasterTask2 => 12,
            JobSelectType::MasterTask3 => 13,
            JobSelectType::MasterTask4 => 14,
            JobSelectType::MasterTask5 => 15,
        }
    }
}

/// Selects a job and the line to start from (command 0x87).
#[derive(Debug, Clone)]
pub struct JobSelectCommand {
    pub select_type: JobSelectType,
    pub job_name: String,
    pub line_number: u32,
    pub text_encoding: TextEncoding,
}

impl JobSelectCommand {
    /// A selection of `job_name` at `line_number`.
    pub fn new(select_type: JobSelectType, job_name: String, line_number: u32, text_encoding: TextEncoding) -> (r: Self)
        ensures
            r.select_type == select_type,
            r.job_name@ == job_name@,
            r.line_number == line_number,
            r.text_encoding == text_encoding,
    {
        Self { select_type, job_name, line_number, text_encoding }
    }
}

impl Command for JobSelectCommand {
    type Response = ();

    open spec fn command_id_spec() -> u16 {
        0x87
    }

    open spec fn instance_spec(&self) -> u16 {
        self.select_type.code()
    }

    open spec fn attribute_spec(&self) -> u8 {
        0
    }

    open spec fn service_spec(&self) -> u8 {
        0x02
    }

    open spec fn serializable(&self) -> bool {
        true
    }

    /// The encoded name zero-padded to 32 bytes, then the line number as a
    /// 32-bit integer; refused when the encoded name is longer than 32 bytes.
    open spec fn payload_spec(&self) -> Option<Seq<u8>> {
        let name = spec_encode_string(self.job_name@, self.text_encoding);
        if name.len() > 32 {
            None
        } else {
            Some(fit_to_width(name, 32) + le_u32(self.line_number))
        }
    }

    fn command_id() -> (r: u16) {
        0x87
    }

    fn serialize(&self) -> (r: Result<Vec<u8>, ProtocolError>)
        ensures
            r matches Err(e) ==> (e matches ProtocolError::InvalidMessage(m) && m@ == "Job name exceeds 32 bytes"@),
    {
        let name = encode_string(self.job_name.as_str(), self.text_encoding);
        if name.len() > 32 {
            return Err(ProtocolError::InvalidMessage("Job name exceeds 32 bytes".to_string()));
        }
        let mut payload = Vec::new();
        push_fixed_width(&mut payload, name.as_slice(), 32);
        push_u32_le(&mut payload, self.line_number);
        assert(payload@ =~= fit_to_width(name@, 32) + le_u32(self.line_number));
        Ok(payload)
    }

    fn instance(&self) -> (r: u16) {
        self.select_type.value()
    }

    fn attribute(&self) -> (r: u8) {
        0
    }

    fn service(&self) -> (r: u8) {
        0x02
    }
}

} // verus!
