//! Status reading (command 0x72): both words, or data 1 or data 2 alone.

use crate::commands::command_trait::Command;
use crate::error::ProtocolError;
use crate::payload::status::{Status, StatusData1, StatusData2};
use vstd::prelude::*;

verus! {

/// Reads both status words (command 0x72, get all).
#[derive(Debug, Clone)]
pub struct ReadStatus;

impl Default for ReadStatus {
    fn default() -> (r: Self) {
        Self
    }
}

impl ReadStatus {
    /// The status request.
    pub fn new() -> (r: Self) {
        Self
    }
}

impl Command for ReadStatus {
    type Response = Status;

    open spec fn command_id_spec() -> u16 {
        0x72
    }

    open spec fn instance_spec(&self) -> u16 {
        1
    }

    open spec fn attribute_spec(&self) -> u8 {
        0
    }

    open spec fn service_spec(&self) -> u8 {
        0x01
    }

    open spec fn serializable(&self) -> bool {
        true
    }

    open spec fn payload_spec(&self) -> Option<Seq<u8>> {
        Some(Seq::empty())
    }

    fn command_id() -> (r: u16) {
        0x72
    }

    fn serialize(&self) -> (r: Result<Vec<u8>, ProtocolError>) {
        Ok(Vec::new())
    }

    fn instance(&self) -> (r: u16) {
        1
    }

    fn attribute(&self) -> (r: u8) {
        0
    }

    fn service(&self) -> (r: u8) {
        0x01
    }
}

/// Reads status data 1 (command 0x72, attribute 1).
#[derive(Debug, Clone)]
pub struct ReadStatusData1;

impl Default for ReadStatusData1 {
    fn default() -> (r: Self) {
        Self
    }
}

impl ReadStatusData1 {
    /// The status data 1 request.
    pub fn new() -> (r: Self) {
        Self
    }
}

impl Command for ReadStatusData1 {
    type Response = StatusData1;

    open spec fn command_id_spec() -> u16 {
        0x72
    }

    open spec fn instance_spec(&self) -> u16 {
        1
    }

    open spec fn attribute_spec(&self) -> u8 {
        1
    }

    open spec fn service_spec(&self) -> u8 {
        0x0e
    }

    open spec fn serializable(&self) -> bool {
        true
    }

    open spec fn payload_spec(&self) -> Option<Seq<u8>> {
        Some(Seq::empty())
    }

    fn command_id() -> (r: u16) {
        0x72
    }

    fn serialize(&self) -> (r: Result<Vec<u8>, ProtocolError>) {
        Ok(Vec::new())
    }

    fn instance(&self) -> (r: u16) {
        1
    }

    fn attribute(&self) -> (r: u8) {
        1
    }

    fn service(&self) -> (r: u8) {
        0x0e
    }
}

/// Reads status data 2 (command 0x72, attribute 2).
#[derive(Debug, Clone)]
pub struct ReadStatusData2;

impl Default for ReadStatusData2 {
    fn default() -> (r: Self) {
        Self
    }
}

impl ReadStatusData2 {
    /// The status data 2 request.
    pub fn new() -> (r: Self) {
        Self
    }
}

impl Command for ReadStatusData2 {
    type Response = StatusData2;

    open spec fn command_id_spec() -> u16 {
        0x72
    }

    open spec fn instance_spec(&self) -> u16 {
        1
    }

    open spec fn attribute_spec(&self) -> u8 {
        2
    }

    open spec fn service_spec(&self) -> u8 {
        0x0e
    }

    open spec fn serializable(&self) -> bool {
        true
    }

    open spec fn payload_spec(&self) -> Option<Seq<u8>> {
        Some(Seq::empty())
    }

    fn command_id() -> (r: u16) {
        0x72
    }

    fn serialize(&self) -> (r: Result<Vec<u8>, ProtocolError>) {
        Ok(Vec::new())
    }

    fn instance(&self) -> (r: u16) {
        1
    }

    fn attribute(&self) -> (r: u8) {
        2
    }

    fn service(&self) -> (r: u8) {
        0x0e
    }
}

} // verus!
