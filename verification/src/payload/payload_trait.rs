//! The trait shared by every HSES payload data type.

use crate::encoding::TextEncoding;
use crate::error::ProtocolError;
use vstd::prelude::*;

verus! {

/// A data type that travels as the payload of an HSES message.
pub trait HsesPayload: Sized {
    /// Whether this value can be serialized (no arithmetic overflow).
    spec fn serializable(&self) -> bool;

    /// The bytes that this value serializes to with `encoding`.
    spec fn payload_bytes(&self, encoding: TextEncoding) -> Seq<u8>;

    /// Whether `data` can be deserialized.
    spec fn decodable(data: Seq<u8>) -> bool;

    /// Whether `v` is what `data` deserializes to with `encoding`.
    spec fn decodes_to(data: Seq<u8>, encoding: TextEncoding, v: Self) -> bool;

    /// Serialize the value to bytes with the given text encoding.
    fn serialize(&self, encoding: TextEncoding) -> (r: Result<Vec<u8>, ProtocolError>)
        requires
            self.serializable(),
        ensures
            r matches Ok(bytes) && bytes@ == self.payload_bytes(encoding),
    ;

    /// Deserialize a value from bytes with the given text encoding.
    fn deserialize(data: &[u8], encoding: TextEncoding) -> (r: Result<Self, ProtocolError>)
        ensures
            r is Ok <==> Self::decodable(data@),
            r matches Ok(v) ==> Self::decodes_to(data@, encoding, v),
    ;
}

} // verus!
