//! Single-variable commands over four-byte value slots: a B, I or D variable
//! travels as four bytes, its value little-endian from the first byte on and
//! zero bytes after it.

use crate::commands::command_trait::Command;
use crate::encoding::TextEncoding;
use crate::error::ProtocolError;
use crate::wire::{i16_at, i32_at, le_i16, le_i32, lemma_i16_roundtrip, lemma_i32_roundtrip, push_i16_le, push_i32_le, read_i16_le, read_i32_le};
use std::marker::PhantomData;
use vstd::prelude::*;

verus! {

/// A variable value with its command number and its four-byte slot.
pub trait VariableType: Sized {
    /// The command number that reads or writes a variable of this type.
    spec fn type_command_id() -> u16;

    /// The four bytes that carry the value.
    spec fn slot(&self) -> Seq<u8>;

    /// The value that a slot of at least four bytes carries.
    spec fn slot_value(data: Seq<u8>) -> Self;

    /// A value written to its slot reads back as itself.
    proof fn law_slot_roundtrip(v: Self)
        ensures
            v.slot().len() == 4,
            Self::slot_value(v.slot()) == v,
    ;

    /// The command number.
    fn command_id() -> (r: u16)
        ensures
            r == Self::type_command_id(),
    ;

    /// The slot of the value; the text encoding plays no part for numbers.
    fn serialize(&self, encoding: TextEncoding) -> (r: Result<Vec<u8>, ProtocolError>)
        ensures
            r matches Ok(v) && v@ == self.slot(),
    ;

    /// The value of a slot: an `Underflow` for fewer than four bytes.
    fn deserialize(data: &[u8], encoding: TextEncoding) -> (r: Result<Self, ProtocolError>)
        ensures
            data@.len() < 4 ==> (r matches Err(ProtocolError::Underflow)),
            data@.len() >= 4 ==> (r matches Ok(v) && v == Self::slot_value(data@)),
    ;
}

impl VariableType for u8 {
    open spec fn type_command_id() -> u16 {
        0x7a
    }

    /// The byte, then three zero bytes.
    open spec fn slot(&self) -> Seq<u8> {
        seq![*self, 0u8, 0u8, 0u8]
    }

    open spec fn slot_value(data: Seq<u8>) -> Self {
        data[0]
    }

    proof fn law_slot_roundtrip(v: Self) {
    }

    fn command_id() -> (r: u16) {
        0x7a
    }

    fn serialize(&self, encoding: TextEncoding) -> (r: Result<Vec<u8>, ProtocolError>) {
        let mut data: Vec<u8> = Vec::new();
        data.push(*self);
        data.push(0);
        data.push(0);
        data.push(0);
        assert(data@ =~= self.slot());
        Ok(data)
    }

    fn deserialize(data: &[u8], encoding: TextEncoding) -> (r: Result<Self, ProtocolError>) {
        if data.len() < 4 {
            return Err(ProtocolError::Underflow);
        }
        Ok(data[0])
    }
}

impl VariableType for i16 {
    open spec fn type_command_id() -> u16 {
        0x7b
    }

    /// The two little-endian bytes, then two zero bytes.
    open spec fn slot(&self) -> Seq<u8> {
        le_i16(*self) + seq![0u8, 0u8]
    }

    open spec fn slot_value(data: Seq<u8>) -> Self {
        i16_at(data, 0)
    }

    proof fn law_slot_roundtrip(v: Self) {
        lemma_i16_roundtrip(v);
    }

    fn command_id() -> (r: u16) {
        0x7b
    }

    fn serialize(&self, encoding: TextEncoding) -> (r: Result<Vec<u8>, ProtocolError>) {
        let mut data: Vec<u8> = Vec::new();
        push_i16_le(&mut data, *self);
        data.push(0);
        data.push(0);
        assert(data@ =~= self.slot());
        Ok(data)
    }

    fn deserialize(data: &[u8], encoding: TextEncoding) -> (r: Result<Self, ProtocolError>) {
        if data.len() < 4 {
            return Err(ProtocolError::Underflow);
        }
        Ok(read_i16_le(data, 0))
    }
}

impl VariableType for i32 {
    open spec fn type_command_id() -> u16 {
        0x7c
    }

    /// The four little-endian bytes.
    open spec fn slot(&self) -> Seq<u8> {
        le_i32(*self)
    }

    open spec fn slot_value(data: Seq<u8>) -> Self {
        i32_at(data, 0)
    }

    proof fn law_slot_roundtrip(v: Self) {
        lemma_i32_roundtrip(v);
    }

    fn command_id() -> (r: u16) {
        0x7c
    }

    fn serialize(&self, encoding: TextEncoding) -> (r: Result<Vec<u8>, ProtocolError>) {
        let mut data: Vec<u8> = Vec::new();
        push_i32_le(&mut data, *self);
        assert(data@ =~= self.slot());
        Ok(data)
    }

    fn deserialize(data: &[u8], encoding: TextEncoding) -> (r: Result<Self, ProtocolError>) {
        if data.len() < 4 {
            return Err(ProtocolError::Underflow);
        }
        Ok(read_i32_le(data, 0))
    }
}

/// Reads variable `index` of type `T` (service 0x0e, attribute 1).
pub struct ReadVar<T> {
    pub index: u8,
    pub _phantom: PhantomData<T>,
}

/// Writes `value` to variable `index` (service 0x10, attribute 1) as its
/// slot.
pub struct WriteVar<T> {
    pub index: u8,
    pub value: T,
}

impl<T: VariableType> Command for ReadVar<T> {
    type Response = T;

    open spec fn command_id_spec() -> u16 {
        T::type_command_id()
    }

    open spec fn instance_spec(&self) -> u16 {
        self.index as u16
    }

    open spec fn attribute_spec(&self) -> u8 {
        1
    }

    open spec fn service_spec(&self) -> u8 {
        0x0e
    }

    open spec fn serializable(&self) -> bool {
        true
    }

    /// No payload.
    open spec fn payload_spec(&self) -> Option<Seq<u8>> {
        Some(Seq::empty())
    }

    fn command_id() -> (r: u16) {
        T::command_id()
    }

    fn serialize(&self) -> (r: Result<Vec<u8>, ProtocolError>) {
        Ok(Vec::new())
    }

    fn instance(&self) -> (r: u16) {
        self.index as u16
    }

    fn attribute(&self) -> (r: u8) {
        1
    }

    fn service(&self) -> (r: u8) {
        0x0e
    }
}

impl<T: VariableType> Command for WriteVar<T> {
    type Response = ();

    open spec fn command_id_spec() -> u16 {
        T::type_command_id()
    }

    open spec fn instance_spec(&self) -> u16 {
        self.index as u16
    }

    open spec fn attribute_spec(&self) -> u8 {
        1
    }

    open spec fn service_spec(&self) -> u8 {
        0x10
    }

    open spec fn serializable(&self) -> bool {
        true
    }

    /// The slot of the value.
    open spec fn payload_spec(&self) -> Option<Seq<u8>> {
        Some(self.value.slot())
    }

    fn command_id() -> (r: u16) {
        T::command_id()
    }

    fn serialize(&self) -> (r: Result<Vec<u8>, ProtocolError>) {
        self.value.serialize(TextEncoding::Utf8)
    }

    fn instance(&self) -> (r: u16) {
        self.index as u16
    }

    fn attribute(&self) -> (r: u8) {
        1
    }

    fn service(&self) -> (r: u8) {
        0x10
    }
}

} // verus!
