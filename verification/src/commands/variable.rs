//! Variable commands: single variables (0x7a-0x7e) and plural variables
//! (0x302-0x306), for B (u8), I (i16), D (i32) and S (string) variables.

use crate::commands::command_trait::Command;
use crate::encoding::TextEncoding;
use crate::error::{text_with_number, text_with_two_numbers, with_number, with_two_numbers, ProtocolError};
use crate::payload::payload_trait::HsesPayload;
use crate::payload::variable::{i16s_bytes, i32s_bytes, string_var_bytes};
use crate::wire::{le_u32, push_all, push_u32_le, u32_at, read_u32_le};
use std::marker::PhantomData;
use vstd::prelude::*;

verus! {

/// The command number that reads or writes one variable of a type.
pub trait VariableCommandId {
    /// The command number.
    spec fn variable_command_id() -> u16;

    /// The command number.
    fn command_id() -> (r: u16)
        ensures
            r == Self::variable_command_id(),
    ;
}

impl VariableCommandId for u8 {
    open spec fn variable_command_id() -> u16 {
        0x7a
    }

    fn command_id() -> (r: u16) {
        0x7a
    }
}

impl VariableCommandId for i16 {
    open spec fn variable_command_id() -> u16 {
        0x7b
    }

    fn command_id() -> (r: u16) {
        0x7b
    }
}

impl VariableCommandId for i32 {
    open spec fn variable_command_id() -> u16 {
        0x7c
    }

    fn command_id() -> (r: u16) {
        0x7c
    }
}

impl VariableCommandId for String {
    open spec fn variable_command_id() -> u16 {
        0x7e
    }

    fn command_id() -> (r: u16) {
        0x7e
    }
}

/// The command number, element size and count limit of plural reads and
/// writes of a variable type.
pub trait MultipleVariableCommandId {
    /// The plural command number.
    spec fn plural_command_id() -> u16;

    /// The bytes of one element.
    spec fn element_size_spec() -> usize;

    /// The largest count of one request.
    spec fn max_count_spec() -> u32;

    /// Whether counts must be even.
    spec fn even_counts_only() -> bool;

    /// The plural command number.
    fn multiple_command_id() -> (r: u16)
        ensures
            r == Self::plural_command_id(),
    ;

    /// The bytes of one element (1 to 16).
    fn element_size() -> (r: usize)
        ensures
            r == Self::element_size_spec(),
            1 <= r <= 16,
    ;

    /// The largest count of one request.
    fn max_count() -> (r: u32)
        ensures
            r == Self::max_count_spec(),
    ;

    /// Accepts a count of 1 up to the largest, and even where the type asks
    /// for it; refuses any other as an invalid message.
    fn validate_count(count: u32) -> (r: Result<(), ProtocolError>)
        ensures
            r is Ok <==> (1 <= count <= Self::max_count_spec() && (Self::even_counts_only() ==> count % 2
                == 0)),
            r is Err ==> (r matches Err(ProtocolError::InvalidMessage(m)) && m@ == count_refusal(
                count,
                Self::max_count_spec(),
            )),
    ;
}

/// The message that refuses `count` where 1 up to `max` elements are
/// allowed: the range when it lies outside, else that it is odd.
pub open spec fn count_refusal(count: u32, max: u32) -> Seq<char> {
    if 1 <= count <= max {
        with_number("Count must be multiple of 2: "@, count as nat, ""@)
    } else {
        range_refusal(count as nat, max)
    }
}

/// The message that refuses a count outside 1 up to `max`.
pub open spec fn range_refusal(count: nat, max: u32) -> Seq<char> {
    with_two_numbers("Invalid count: "@, count, " (must be 1-"@, max as nat, ")"@)
}

/// Whether `count` elements of `T` fit one plural request.
pub open spec fn valid_count<T: MultipleVariableCommandId + ?Sized>(count: u32) -> bool {
    &&& 1 <= count <= T::max_count_spec()
    &&& T::even_counts_only() ==> count % 2 == 0
}

/// Refuses a count outside 1 up to `max`.
fn check_count_range(count: u32, max: u32) -> (r: Result<(), ProtocolError>)
    ensures
        r is Ok <==> 1 <= count <= max,
        r is Err ==> (r matches Err(ProtocolError::InvalidMessage(m)) && m@ == range_refusal(count as nat, max)),
{
    if count == 0 || count > max {
        return Err(
            ProtocolError::InvalidMessage(
                text_with_two_numbers("Invalid count: ", count as u64, " (must be 1-", max as u64, ")"),
            ),
        );
    }
    Ok(())
}

impl MultipleVariableCommandId for u8 {
    open spec fn plural_command_id() -> u16 {
        0x302
    }

    open spec fn element_size_spec() -> usize {
        1
    }

    open spec fn max_count_spec() -> u32 {
        474
    }

    open spec fn even_counts_only() -> bool {
        true
    }

    fn multiple_command_id() -> (r: u16) {
        0x302
    }

    fn element_size() -> (r: usize) {
        1
    }

    fn max_count() -> (r: u32) {
        474
    }

    fn validate_count(count: u32) -> (r: Result<(), ProtocolError>) {
        check_count_range(count, 474)?;
        if count % 2 != 0 {
            return Err(
                ProtocolError::InvalidMessage(text_with_number("Count must be multiple of 2: ", count as u64, "")),
            );
        }
        Ok(())
    }
}

impl MultipleVariableCommandId for i16 {
    open spec fn plural_command_id() -> u16 {
        0x303
    }

    open spec fn element_size_spec() -> usize {
        2
    }

    open spec fn max_count_spec() -> u32 {
        237
    }

    open spec fn even_counts_only() -> bool {
        false
    }

    fn multiple_command_id() -> (r: u16) {
        0x303
    }

    fn element_size() -> (r: usize) {
        2
    }

    fn max_count() -> (r: u32) {
        237
    }

    fn validate_count(count: u32) -> (r: Result<(), ProtocolError>) {
        check_count_range(count, 237)
    }
}

impl MultipleVariableCommandId for i32 {
    open spec fn plural_command_id() -> u16 {
        0x304
    }

    open spec fn element_size_spec() -> usize {
        4
    }

    open spec fn max_count_spec() -> u32 {
        118
    }

    open spec fn even_counts_only() -> bool {
        false
    }

    fn multiple_command_id() -> (r: u16) {
        0x304
    }

    fn element_size() -> (r: usize) {
        4
    }

    fn max_count() -> (r: u32) {
        118
    }

    fn validate_count(count: u32) -> (r: Result<(), ProtocolError>) {
        check_count_range(count, 118)
    }
}

impl MultipleVariableCommandId for String {
    open spec fn plural_command_id() -> u16 {
        0x306
    }

    open spec fn element_size_spec() -> usize {
        16
    }

    open spec fn max_count_spec() -> u32 {
        29
    }

    open spec fn even_counts_only() -> bool {
        false
    }

    fn multiple_command_id() -> (r: u16) {
        0x306
    }

    fn element_size() -> (r: usize) {
        16
    }

    fn max_count() -> (r: u32) {
        29
    }

    fn validate_count(count: u32) -> (r: Result<(), ProtocolError>) {
        check_count_range(count, 29)
    }
}

/// The bytes of element `i` of a plural reply: after the 4-byte count,
/// `size` bytes per element.
pub open spec fn element_bytes(data: Seq<u8>, i: int, size: int) -> Seq<u8> {
    data.subrange(4 + i * size, 4 + i * size + size)
}

/// Whether a plural reply has the shape it must: at least 4 bytes, the
/// expected count in the first 4, then exactly that many elements.
pub open spec fn plural_reply_shape(data: Seq<u8>, expected_count: u32, size: int) -> bool {
    &&& data.len() >= 4
    &&& u32_at(data, 0) == expected_count
    &&& data.len() == 4 + expected_count * size
}

/// The message that refuses a plural reply of the wrong shape: too short
/// for the count, another count, or another length.
pub open spec fn plural_reply_refusal(data: Seq<u8>, expected_count: u32, size: int) -> Seq<char> {
    if data.len() < 4 {
        with_number("Response too short: "@, data.len(), " bytes (need at least 4)"@)
    } else if u32_at(data, 0) != expected_count {
        with_two_numbers("Count mismatch: expected "@, expected_count as nat, ", got "@, u32_at(data, 0) as nat, ""@)
    } else {
        with_two_numbers(
            "Invalid response length: got "@,
            data.len(),
            " bytes, expected "@,
            (4 + expected_count * size) as nat,
            ""@,
        )
    }
}

/// Reading variables back from a plural reply.
pub trait MultipleVariableResponse: Sized + MultipleVariableCommandId + HsesPayload {
    /// Reads the element that starts at `offset`.
    fn parse_element(data: &[u8], offset: usize, encoding: TextEncoding) -> (r: Result<Self, ProtocolError>)
        requires
            offset + Self::element_size_spec() <= data@.len(),
        ensures
            r is Ok <==> Self::decodable(
                data@.subrange(offset as int, offset + Self::element_size_spec()),
            ),
            r matches Ok(v) ==> Self::decodes_to(
                data@.subrange(offset as int, offset + Self::element_size_spec()),
                encoding,
                v,
            ),
    ;

    /// Reads `expected_count` elements after the count; a reply of the
    /// wrong shape is a deserialization error, and so is an element that
    /// does not read.
    fn deserialize_multiple(data: &[u8], expected_count: u32, encoding: TextEncoding) -> (r: Result<
        Vec<Self>,
        ProtocolError,
    >)
        ensures
            !plural_reply_shape(data@, expected_count, Self::element_size_spec() as int) ==> (r matches Err(
                ProtocolError::Deserialization(m),
            ) && m@ == plural_reply_refusal(data@, expected_count, Self::element_size_spec() as int)),
            plural_reply_shape(data@, expected_count, Self::element_size_spec() as int) ==> (r is Ok
                <==> forall|i: int|
                0 <= i < expected_count ==> #[trigger] Self::decodable(
                    element_bytes(data@, i, Self::element_size_spec() as int),
                )),
            r matches Ok(values) ==> values@.len() == expected_count && forall|i: int|
                0 <= i < expected_count ==> #[trigger] Self::decodes_to(
                    element_bytes(data@, i, Self::element_size_spec() as int),
                    encoding,
                    values@[i],
                ),
    {
        if data.len() < 4 {
            return Err(
                ProtocolError::Deserialization(
                    text_with_number("Response too short: ", data.len() as u64, " bytes (need at least 4)"),
                ),
            );
        }
        let response_count = read_u32_le(data, 0);
        if response_count != expected_count {
            return Err(
                ProtocolError::Deserialization(
                    text_with_two_numbers(
                        "Count mismatch: expected ",
                        expected_count as u64,
                        ", got ",
                        response_count as u64,
                        "",
                    ),
                ),
            );
        }
        let size = Self::element_size();
        assert(expected_count as u64 * size as u64 <= 0x10_0000_0000) by (nonlinear_arith)
            requires
                size <= 16,
        ;
        let expected_len: u64 = 4 + expected_count as u64 * size as u64;
        if data.len() as u64 != expected_len {
            return Err(
                ProtocolError::Deserialization(
                    text_with_two_numbers(
                        "Invalid response length: got ",
                        data.len() as u64,
                        " bytes, expected ",
                        expected_len,
                        "",
                    ),
                ),
            );
        }
        let ghost sz = size as int;
        let mut values: Vec<Self> = Vec::new();
        let mut i: usize = 0;
        let n = expected_count as usize;
        let dlen = data.len();
        while i < n
            invariant
                n == expected_count,
                dlen == data@.len(),
                plural_reply_shape(data@, expected_count, sz),
                size == Self::element_size_spec(),
                1 <= size <= 16,
                sz == size,
                data@.len() == 4 + n * sz,
                i <= n,
                values@.len() == i,
                forall|k: int|
                    0 <= k < i ==> #[trigger] Self::decodable(element_bytes(data@, k, sz)),
                forall|k: int|
                    0 <= k < i ==> #[trigger] Self::decodes_to(
                        element_bytes(data@, k, sz),
                        encoding,
                        values@[k],
                    ),
            decreases n - i,
        {
            assert(4 + i * sz + sz <= 4 + n * sz) by (nonlinear_arith)
                requires
                    i < n,
                    sz >= 1,
            ;
            let offset = 4 + i * size;
            match Self::parse_element(data, offset, encoding) {
                Ok(v) => {
                    assert(data@.subrange(offset as int, offset + sz) =~= element_bytes(data@, i as int, sz));
                    values.push(v);
                },
                Err(e) => {
                    assert(data@.subrange(offset as int, offset + sz) =~= element_bytes(data@, i as int, sz));
                    return Err(e);
                },
            }
            i = i + 1;
        }
        Ok(values)
    }
}

impl MultipleVariableResponse for u8 {
    fn parse_element(data: &[u8], offset: usize, encoding: TextEncoding) -> (r: Result<Self, ProtocolError>) {
        let n = data.len();
        let slice = vstd::slice::slice_subrange(data, offset, offset + 1);
        <u8 as HsesPayload>::deserialize(slice, encoding)
    }
}

impl MultipleVariableResponse for i16 {
    fn parse_element(data: &[u8], offset: usize, encoding: TextEncoding) -> (r: Result<Self, ProtocolError>) {
        let n = data.len();
        let slice = vstd::slice::slice_subrange(data, offset, offset + 2);
        <i16 as HsesPayload>::deserialize(slice, encoding)
    }
}

impl MultipleVariableResponse for i32 {
    fn parse_element(data: &[u8], offset: usize, encoding: TextEncoding) -> (r: Result<Self, ProtocolError>) {
        let n = data.len();
        let slice = vstd::slice::slice_subrange(data, offset, offset + 4);
        <i32 as HsesPayload>::deserialize(slice, encoding)
    }
}

impl MultipleVariableResponse for String {
    fn parse_element(data: &[u8], offset: usize, encoding: TextEncoding) -> (r: Result<Self, ProtocolError>) {
        let n = data.len();
        let slice = vstd::slice::slice_subrange(data, offset, offset + 16);
        <String as HsesPayload>::deserialize(slice, encoding)
    }
}

/// Reads `count` variables of type `T` from `start_variable_number` on.
#[derive(Debug, PartialEq)]
pub struct ReadMultipleVariables<T: MultipleVariableCommandId + PartialEq> {
    pub start_variable_number: u16,
    pub count: u32,
    pub _phantom: PhantomData<T>,
}

impl<T: MultipleVariableCommandId + PartialEq> Clone for ReadMultipleVariables<T> {
    fn clone(&self) -> (r: Self)
        ensures
            r.start_variable_number == self.start_variable_number,
            r.count == self.count,
    {
        Self { start_variable_number: self.start_variable_number, count: self.count, _phantom: PhantomData }
    }
}

impl<T: MultipleVariableCommandId + PartialEq> ReadMultipleVariables<T> {
    /// A plural read; a count that `T` does not allow is an invalid message.
    pub fn new(start_variable_number: u16, count: u32) -> (r: Result<Self, ProtocolError>)
        ensures
            !valid_count::<T>(count) ==> (r matches Err(ProtocolError::InvalidMessage(m)) && m@ == count_refusal(
                count,
                T::max_count_spec(),
            )),
            valid_count::<T>(count) ==> (r matches Ok(c) && c.start_variable_number == start_variable_number
                && c.count == count),
    {
        T::validate_count(count)?;
        Ok(Self { start_variable_number, count, _phantom: PhantomData })
    }
}

impl<T: MultipleVariableCommandId + PartialEq> Command for ReadMultipleVariables<T> {
    type Response = Vec<T>;

    open spec fn command_id_spec() -> u16 {
        T::plural_command_id()
    }

    open spec fn instance_spec(&self) -> u16 {
        self.start_variable_number
    }

    open spec fn attribute_spec(&self) -> u8 {
        0
    }

    open spec fn service_spec(&self) -> u8 {
        0x33
    }

    open spec fn serializable(&self) -> bool {
        true
    }

    /// The count as a 32-bit integer.
    open spec fn payload_spec(&self) -> Option<Seq<u8>> {
        Some(le_u32(self.count))
    }

    fn command_id() -> (r: u16) {
        T::multiple_command_id()
    }

    fn serialize(&self) -> (r: Result<Vec<u8>, ProtocolError>) {
        let mut v = Vec::new();
        push_u32_le(&mut v, self.count);
        assert(v@ =~= le_u32(self.count));
        Ok(v)
    }

    fn instance(&self) -> (r: u16) {
        self.start_variable_number
    }

    fn attribute(&self) -> (r: u8) {
        0
    }

    fn service(&self) -> (r: u8) {
        0x33
    }
}

/// Writes variables of type `T` from `start_variable_number` on.
#[derive(Debug, Clone, PartialEq)]
pub struct WriteMultipleVariables<T: MultipleVariableCommandId + PartialEq> {
    pub start_variable_number: u16,
    pub values: Vec<T>,
}

/// Writes S variables from `start_variable_number` on, encoding each text.
#[derive(Debug, Clone, PartialEq, Eq)]
pub struct WriteMultipleStringVariables {
    pub start_variable_number: u16,
    pub values: Vec<String>,
    pub text_encoding: TextEncoding,
}

impl<T: MultipleVariableCommandId + PartialEq + Clone + HsesPayload> WriteMultipleVariables<T> {
    /// A plural write; a number of values that does not fit in 32 bits, or
    /// that `T` does not allow, is an invalid message.
    pub fn new(start_variable_number: u16, values: Vec<T>) -> (r: Result<Self, ProtocolError>)
        ensures
            values@.len() > u32::MAX ==> (r matches Err(ProtocolError::InvalidMessage(m)) && m@ == with_number(
                "Values count "@,
                values@.len(),
                " exceeds u32::MAX"@,
            )),
            values@.len() <= u32::MAX && !valid_count::<T>(values@.len() as u32) ==> (r matches Err(
                ProtocolError::InvalidMessage(m),
            ) && m@ == count_refusal(values@.len() as u32, T::max_count_spec())),
            values@.len() <= u32::MAX && valid_count::<T>(values@.len() as u32) ==> (r matches Ok(c)
                && c.start_variable_number == start_variable_number && c.values@ == values@),
    {
        if values.len() as u64 > u32::MAX as u64 {
            return Err(
                ProtocolError::InvalidMessage(
                    text_with_number("Values count ", values.len() as u64, " exceeds u32::MAX"),
                ),
            );
        }
        T::validate_count(values.len() as u32)?;
        Ok(Self { start_variable_number, values })
    }
}

/// The payload of a plural write: the count as a 32-bit integer, then the
/// values; refused when the count lies outside 1 up to `max`.
pub open spec fn plural_write_payload(len: nat, max: u32, values: Seq<u8>) -> Option<Seq<u8>> {
    if 1 <= len <= max {
        Some(le_u32(len as u32) + values)
    } else {
        None
    }
}

/// The message that refuses a plural write of `len` values where 1 up to
/// `max` are allowed.
pub open spec fn plural_write_refusal(len: nat, max: u32) -> Seq<char> {
    if len > u32::MAX {
        with_number("Values count "@, len, " exceeds u32::MAX"@)
    } else {
        range_refusal(len, max)
    }
}

/// Checks the count of a plural write and puts it in front of the values.
fn plural_write(len: usize, max: u32, values: &[u8]) -> (r: Result<Vec<u8>, ProtocolError>)
    ensures
        match r {
            Ok(bytes) => plural_write_payload(len as nat, max, values@) == Some(bytes@),
            Err(e) => plural_write_payload(len as nat, max, values@) is None && (e matches ProtocolError::InvalidMessage(
                m,
            ) && m@ == plural_write_refusal(len as nat, max)),
        },
{
    if len as u64 > u32::MAX as u64 {
        return Err(
            ProtocolError::InvalidMessage(text_with_number("Values count ", len as u64, " exceeds u32::MAX")),
        );
    }
    let count = len as u32;
    if count == 0 || count > max {
        return Err(
            ProtocolError::InvalidMessage(
                text_with_two_numbers("Invalid count: ", count as u64, " (must be 1-", max as u64, ")"),
            ),
        );
    }
    let mut payload = Vec::new();
    push_u32_le(&mut payload, count);
    push_all(&mut payload, values);
    assert(payload@ =~= le_u32(count) + values@);
    Ok(payload)
}

impl Command for WriteMultipleVariables<u8> {
    type Response = ();

    open spec fn command_id_spec() -> u16 {
        0x302
    }

    open spec fn instance_spec(&self) -> u16 {
        self.start_variable_number
    }

    open spec fn attribute_spec(&self) -> u8 {
        0
    }

    open spec fn service_spec(&self) -> u8 {
        0x34
    }

    open spec fn serializable(&self) -> bool {
        true
    }

    /// The count, then the bytes; refused outside 1-474 values.
    open spec fn payload_spec(&self) -> Option<Seq<u8>> {
        plural_write_payload(self.values@.len(), 474, self.values@)
    }

    fn command_id() -> (r: u16) {
        0x302
    }

    fn serialize(&self) -> (r: Result<Vec<u8>, ProtocolError>)
        ensures
            r matches Err(e) ==> (e matches ProtocolError::InvalidMessage(m) && m@ == plural_write_refusal(
                self.values@.len(),
                474,
            )),
    {
        let body = self.values.serialize(TextEncoding::Utf8)?;
        plural_write(self.values.len(), 474, body.as_slice())
    }

    fn instance(&self) -> (r: u16) {
        self.start_variable_number
    }

    fn attribute(&self) -> (r: u8) {
        0
    }

    fn service(&self) -> (r: u8) {
        0x34
    }
}

impl Command for WriteMultipleVariables<i16> {
    type Response = ();

    open spec fn command_id_spec() -> u16 {
        0x303
    }

    open spec fn instance_spec(&self) -> u16 {
        self.start_variable_number
    }

    open spec fn attribute_spec(&self) -> u8 {
        0
    }

    open spec fn service_spec(&self) -> u8 {
        0x34
    }

    open spec fn serializable(&self) -> bool {
        true
    }

    /// The count, then each value as a 16-bit integer; refused outside
    /// 1-237 values.
    open spec fn payload_spec(&self) -> Option<Seq<u8>> {
        plural_write_payload(self.values@.len(), 237, i16s_bytes(self.values@))
    }

    fn command_id() -> (r: u16) {
        0x303
    }

    fn serialize(&self) -> (r: Result<Vec<u8>, ProtocolError>)
        ensures
            r matches Err(e) ==> (e matches ProtocolError::InvalidMessage(m) && m@ == plural_write_refusal(
                self.values@.len(),
                237,
            )),
    {
        let body = self.values.serialize(TextEncoding::Utf8)?;
        plural_write(self.values.len(), 237, body.as_slice())
    }

    fn instance(&self) -> (r: u16) {
        self.start_variable_number
    }

    fn attribute(&self) -> (r: u8) {
        0
    }

    fn service(&self) -> (r: u8) {
        0x34
    }
}

impl Command for WriteMultipleVariables<i32> {
    type Response = ();

    open spec fn command_id_spec() -> u16 {
        0x304
    }

    open spec fn instance_spec(&self) -> u16 {
        self.start_variable_number
    }

    open spec fn attribute_spec(&self) -> u8 {
        0
    }

    open spec fn service_spec(&self) -> u8 {
        0x34
    }

    open spec fn serializable(&self) -> bool {
        true
    }

    /// The count, then each value as a 32-bit integer; refused outside
    /// 1-118 values.
    open spec fn payload_spec(&self) -> Option<Seq<u8>> {
        plural_write_payload(self.values@.len(), 118, i32s_bytes(self.values@))
    }

    fn command_id() -> (r: u16) {
        0x304
    }

    fn serialize(&self) -> (r: Result<Vec<u8>, ProtocolError>)
        ensures
            r matches Err(e) ==> (e matches ProtocolError::InvalidMessage(m) && m@ == plural_write_refusal(
                self.values@.len(),
                118,
            )),
    {
        let body = self.values.serialize(TextEncoding::Utf8)?;
        plural_write(self.values.len(), 118, body.as_slice())
    }

    fn instance(&self) -> (r: u16) {
        self.start_variable_number
    }

    fn attribute(&self) -> (r: u8) {
        0
    }

    fn service(&self) -> (r: u8) {
        0x34
    }
}

/// The 16-byte fields of several S variables, one after another.
pub open spec fn string_vars_bytes(texts: Seq<String>, encoding: TextEncoding) -> Seq<u8>
    decreases texts.len(),
{
    if texts.len() == 0 {
        Seq::empty()
    } else {
        string_vars_bytes(texts.drop_last(), encoding) + string_var_bytes(texts.last()@, encoding)
    }
}

impl Command for WriteMultipleStringVariables {
    type Response = ();

    open spec fn command_id_spec() -> u16 {
        0x306
    }

    open spec fn instance_spec(&self) -> u16 {
        self.start_variable_number
    }

    open spec fn attribute_spec(&self) -> u8 {
        0
    }

    open spec fn service_spec(&self) -> u8 {
        0x34
    }

    open spec fn serializable(&self) -> bool {
        true
    }

    /// The count, then each text in its 16-byte field; refused outside
    /// 1-29 values.
    open spec fn payload_spec(&self) -> Option<Seq<u8>> {
        plural_write_payload(self.values@.len(), 29, string_vars_bytes(self.values@, self.text_encoding))
    }

    fn command_id() -> (r: u16) {
        0x306
    }

    fn serialize(&self) -> (r: Result<Vec<u8>, ProtocolError>)
        ensures
            r matches Err(e) ==> (e matches ProtocolError::InvalidMessage(m) && m@ == plural_write_refusal(
                self.values@.len(),
                29,
            )),
    {
        let mut body: Vec<u8> = Vec::new();
        let mut i: usize = 0;
        while i < self.values.len()
            invariant
                i <= self.values@.len(),
                body@ == string_vars_bytes(self.values@.take(i as int), self.text_encoding),
            decreases self.values@.len() - i,
        {
            let field = self.values[i].serialize(self.text_encoding)?;
            push_all(&mut body, field.as_slice());
            i = i + 1;
            assert(self.values@.take(i as int).drop_last() =~= self.values@.take(i - 1));
        }
        assert(self.values@.take(i as int) =~= self.values@);
        plural_write(self.values.len(), 29, body.as_slice())
    }

    fn instance(&self) -> (r: u16) {
        self.start_variable_number
    }

    fn attribute(&self) -> (r: u8) {
        0
    }

    fn service(&self) -> (r: u8) {
        0x34
    }
}

/// Reads variable `index` of type `T`.
#[derive(Debug, PartialEq)]
pub struct ReadVariable<T: HsesPayload + VariableCommandId + PartialEq> {
    pub index: u16,
    pub _phantom: PhantomData<T>,
}

impl<T: HsesPayload + VariableCommandId + PartialEq> Clone for ReadVariable<T> {
    fn clone(&self) -> (r: Self)
        ensures
            r.index == self.index,
    {
        Self { index: self.index, _phantom: PhantomData }
    }
}

impl<T: HsesPayload + VariableCommandId + PartialEq> Command for ReadVariable<T> {
    type Response = T;

    open spec fn command_id_spec() -> u16 {
        T::variable_command_id()
    }

    open spec fn instance_spec(&self) -> u16 {
        self.index
    }

    open spec fn attribute_spec(&self) -> u8 {
        0
    }

    open spec fn service_spec(&self) -> u8 {
        0x0e
    }

    open spec fn serializable(&self) -> bool {
        true
    }

    open spec fn payload_spec(&self) -> Option<Seq<u8>> {
        Some(Seq::empty())
    }

    fn command_id() -> (r: u16) {
        T::command_id()
    }

    fn serialize(&self) -> (r: Result<Vec<u8>, ProtocolError>) {
        Ok(Vec::new())
    }

    fn instance(&self) -> (r: u16) {
        self.index
    }

    fn attribute(&self) -> (r: u8) {
        0
    }

    fn service(&self) -> (r: u8) {
        0x0e
    }
}

/// Writes `value` to variable `index`.
#[derive(Debug, Clone, PartialEq)]
pub struct WriteVariable<T: HsesPayload + VariableCommandId + PartialEq> {
    pub index: u16,
    pub value: T,
}

/// Writes a text to S variable `index` in the given encoding.
#[derive(Debug, Clone, PartialEq, Eq)]
pub struct WriteStringVar {
    pub index: u16,
    pub value: String,
    pub text_encoding: TextEncoding,
}

impl<T: HsesPayload + VariableCommandId + PartialEq> Command for WriteVariable<T> {
    type Response = ();

    open spec fn command_id_spec() -> u16 {
        T::variable_command_id()
    }

    open spec fn instance_spec(&self) -> u16 {
        self.index
    }

    open spec fn attribute_spec(&self) -> u8 {
        0
    }

    open spec fn service_spec(&self) -> u8 {
        0x10
    }

    open spec fn serializable(&self) -> bool {
        self.value.serializable()
    }

    /// The value serialized with UTF-8 text.
    open spec fn payload_spec(&self) -> Option<Seq<u8>> {
        Some(self.value.payload_bytes(TextEncoding::Utf8))
    }

    fn command_id() -> (r: u16) {
        T::command_id()
    }

    fn serialize(&self) -> (r: Result<Vec<u8>, ProtocolError>) {
        self.value.serialize(TextEncoding::Utf8)
    }

    fn instance(&self) -> (r: u16) {
        self.index
    }

    fn attribute(&self) -> (r: u8) {
        0
    }

    fn service(&self) -> (r: u8) {
        0x10
    }
}

impl Command for WriteStringVar {
    type Response = ();

    open spec fn command_id_spec() -> u16 {
        0x7e
    }

    open spec fn instance_spec(&self) -> u16 {
        self.index
    }

    open spec fn attribute_spec(&self) -> u8 {
        0
    }

    open spec fn service_spec(&self) -> u8 {
        0x10
    }

    open spec fn serializable(&self) -> bool {
        true
    }

    /// The text in its 16-byte field.
    open spec fn payload_spec(&self) -> Option<Seq<u8>> {
        Some(string_var_bytes(self.value@, self.text_encoding))
    }

    fn command_id() -> (r: u16) {
        <String as VariableCommandId>::command_id()
    }

    fn serialize(&self) -> (r: Result<Vec<u8>, ProtocolError>) {
        self.value.serialize(self.text_encoding)
    }

    fn instance(&self) -> (r: u16) {
        self.index
    }

    fn attribute(&self) -> (r: u8) {
        0
    }

    fn service(&self) -> (r: u8) {
        0x10
    }
}

} // verus!
