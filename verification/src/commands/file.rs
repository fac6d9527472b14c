//! File control commands: file list (service 0x32), send (0x15), receive
//! (0x16) and delete (0x09).

use crate::commands::command_trait::Command;
use crate::encoding::TextEncoding;
use crate::encoding_utils::{encode_string, spec_encode_string};
use crate::error::ProtocolError;
use crate::wire::push_all;
use vstd::prelude::*;

pub mod response;

verus! {

/// Asks for the names of the files that match a pattern such as `*.JBI`.
#[derive(Debug, Clone, PartialEq, Eq)]
pub struct ReadFileList {
    pub pattern: String,
    pub encoding: TextEncoding,
}

impl ReadFileList {
    /// A listing of the files that match `pattern`.
    pub fn new(pattern: String, encoding: TextEncoding) -> (r: Self)
        ensures
            r.pattern@ == pattern@,
            r.encoding == encoding,
    {
        Self { pattern, encoding }
    }
}

impl Command for ReadFileList {
    type Response = Vec<String>;

    open spec fn command_id_spec() -> u16 {
        0
    }

    open spec fn instance_spec(&self) -> u16 {
        0
    }

    open spec fn attribute_spec(&self) -> u8 {
        0
    }

    open spec fn service_spec(&self) -> u8 {
        0x32
    }

    open spec fn serializable(&self) -> bool {
        true
    }

    /// The encoded pattern.
    open spec fn payload_spec(&self) -> Option<Seq<u8>> {
        Some(spec_encode_string(self.pattern@, self.encoding))
    }

    fn command_id() -> (r: u16) {
        0
    }

    fn serialize(&self) -> (r: Result<Vec<u8>, ProtocolError>) {
        Ok(encode_string(self.pattern.as_str(), self.encoding))
    }

    fn instance(&self) -> (r: u16) {
        0
    }

    fn attribute(&self) -> (r: u8) {
        0
    }

    fn service(&self) -> (r: u8) {
        0x32
    }
}

/// Sends a file to the controller.
#[derive(Debug, Clone, PartialEq, Eq)]
pub struct SendFile {
    pub filename: String,
    pub content: Vec<u8>,
    pub encoding: TextEncoding,
}

impl SendFile {
    /// A transfer of `content` under `filename`.
    pub fn new(filename: String, content: Vec<u8>, encoding: TextEncoding) -> (r: Self)
        ensures
            r.filename@ == filename@,
            r.content@ == content@,
            r.encoding == encoding,
    {
        Self { filename, content, encoding }
    }
}

impl Command for SendFile {
    type Response = ();

    open spec fn command_id_spec() -> u16 {
        0
    }

    open spec fn instance_spec(&self) -> u16 {
        0
    }

    open spec fn attribute_spec(&self) -> u8 {
        0
    }

    open spec fn service_spec(&self) -> u8 {
        0x15
    }

    open spec fn serializable(&self) -> bool {
        true
    }

    /// The encoded name, a zero byte, then the content.
    open spec fn payload_spec(&self) -> Option<Seq<u8>> {
        Some(spec_encode_string(self.filename@, self.encoding).push(0u8) + self.content@)
    }

    fn command_id() -> (r: u16) {
        0
    }

    fn serialize(&self) -> (r: Result<Vec<u8>, ProtocolError>) {
        let mut payload = encode_string(self.filename.as_str(), self.encoding);
        payload.push(0);
        push_all(&mut payload, self.content.as_slice());
        Ok(payload)
    }

    fn instance(&self) -> (r: u16) {
        0
    }

    fn attribute(&self) -> (r: u8) {
        0
    }

    fn service(&self) -> (r: u8) {
        0x15
    }
}

/// Fetches a file from the controller.
#[derive(Debug, Clone, PartialEq, Eq)]
pub struct ReceiveFile {
    pub filename: String,
    pub encoding: TextEncoding,
}

impl ReceiveFile {
    /// A fetch of `filename`.
    pub fn new(filename: String, encoding: TextEncoding) -> (r: Self)
        ensures
            r.filename@ == filename@,
            r.encoding == encoding,
    {
        Self { filename, encoding }
    }
}

impl Command for ReceiveFile {
    type Response = Vec<u8>;

    open spec fn command_id_spec() -> u16 {
        0
    }

    open spec fn instance_spec(&self) -> u16 {
        0
    }

    open spec fn attribute_spec(&self) -> u8 {
        0
    }

    open spec fn service_spec(&self) -> u8 {
        0x16
    }

    open spec fn serializable(&self) -> bool {
        true
    }

    /// The encoded name.
    open spec fn payload_spec(&self) -> Option<Seq<u8>> {
        Some(spec_encode_string(self.filename@, self.encoding))
    }

    fn command_id() -> (r: u16) {
        0
    }

    fn serialize(&self) -> (r: Result<Vec<u8>, ProtocolError>) {
        Ok(encode_string(self.filename.as_str(), self.encoding))
    }

    fn instance(&self) -> (r: u16) {
        0
    }

    fn attribute(&self) -> (r: u8) {
        0
    }

    fn service(&self) -> (r: u8) {
        0x16
    }
}

/// Deletes a file on the controller.
#[derive(Debug, Clone, PartialEq, Eq)]
pub struct DeleteFile {
    pub filename: String,
    pub encoding: TextEncoding,
}

impl DeleteFile {
    /// A deletion of `filename`.
    pub fn new(filename: String, encoding: TextEncoding) -> (r: Self)
        ensures
            r.filename@ == filename@,
            r.encoding == encoding,
    {
        Self { filename, encoding }
    }
}

impl Command for DeleteFile {
    type Response = ();

    open spec fn command_id_spec() -> u16 {
        0
    }

    open spec fn instance_spec(&self) -> u16 {
        0
    }

    open spec fn attribute_spec(&self) -> u8 {
        0
    }

    open spec fn service_spec(&self) -> u8 {
        0x09
    }

    open spec fn serializable(&self) -> bool {
        true
    }

    /// The encoded name.
    open spec fn payload_spec(&self) -> Option<Seq<u8>> {
        Some(spec_encode_string(self.filename@, self.encoding))
    }

    fn command_id() -> (r: u16) {
        0
    }

    fn serialize(&self) -> (r: Result<Vec<u8>, ProtocolError>) {
        Ok(encode_string(self.filename.as_str(), self.encoding))
    }

    fn instance(&self) -> (r: u16) {
        0
    }

    fn attribute(&self) -> (r: u8) {
        0
    }

    fn service(&self) -> (r: u8) {
        0x09
    }
}

} // verus!
