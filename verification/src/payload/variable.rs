//! Variable payloads: B (`u8`), I (`i16`), D (`i32`) and S (16-byte string)
//! variables, one at a time or several together.

use crate::encoding::TextEncoding;
use crate::encoding_utils::{decode_string_with_fallback, encode_string, spec_decode_string, spec_encode_string};
use crate::error::{text_with_number, with_number, ProtocolError};
use crate::payload::payload_trait::HsesPayload;
use crate::wire::{
    before_nul, find_nul, fit_to_width, i16_at, i32_at, le_i16, le_i32, lemma_i16_roundtrip,
    lemma_i32_roundtrip, push_fixed_width, push_i16_le, push_i32_le, read_i16_le, read_i32_le,
};
use vstd::prelude::*;

verus! {

/// The bytes of every item of `s`, one after another.
pub open spec fn flatten_map<T>(s: Seq<T>, f: spec_fn(T) -> Seq<u8>) -> Seq<u8>
    decreases s.len(),
{
    if s.len() == 0 {
        Seq::empty()
    } else {
        flatten_map(s.drop_last(), f) + f(s.last())
    }
}

/// When every item takes `w` bytes, item `k` stands at bytes `k*w .. k*w + w`.
pub proof fn lemma_flatten_map_fixed<T>(s: Seq<T>, f: spec_fn(T) -> Seq<u8>, w: nat)
    requires
        forall|x: T| #[trigger] f(x).len() == w,
    ensures
        flatten_map(s, f).len() == s.len() * w,
        forall|k: int|
            0 <= k < s.len() ==> #[trigger] flatten_map(s, f).subrange(k * w, k * w + w) == f(s[k]),
    decreases s.len(),
{
    if s.len() > 0 {
        let p = s.drop_last();
        lemma_flatten_map_fixed(p, f, w);
        let n = s.len();
        let whole = flatten_map(s, f);
        let front = flatten_map(p, f);
        assert(whole == front + f(s.last()));
        assert((n - 1) * w + w == n * w) by (nonlinear_arith);
        assert forall|k: int| 0 <= k < s.len() implies #[trigger] whole.subrange(k * w, k * w + w)
            == f(s[k]) by {
            if k < n - 1 {
                assert(k * w + w <= (n - 1) * w) by (nonlinear_arith)
                    requires
                        k < n - 1,
                        0 <= k,
                ;
                assert(0 <= k * w) by (nonlinear_arith)
                    requires
                        0 <= k,
                ;
                assert(whole.subrange(k * w, k * w + w) =~= front.subrange(k * w, k * w + w));
                assert(p[k] == s[k]);
            } else {
                assert(k == n - 1);
                assert(whole.subrange(k * w, k * w + w) =~= f(s.last()));
            }
        }
    }
}

/// The bytes of several I variables.
pub open spec fn i16s_bytes(s: Seq<i16>) -> Seq<u8> {
    flatten_map(s, |v: i16| le_i16(v))
}

/// The bytes of several D variables.
pub open spec fn i32s_bytes(s: Seq<i32>) -> Seq<u8> {
    flatten_map(s, |v: i32| le_i32(v))
}

/// The bytes of several S variables given as raw 16-byte arrays.
pub open spec fn arrays16_bytes(s: Seq<[u8; 16]>) -> Seq<u8> {
    flatten_map(s, |v: [u8; 16]| v@)
}

/// The 16 bytes of one S variable: the encoded text, cut or zero-padded to 16.
pub open spec fn string_var_bytes(text: Seq<char>, encoding: TextEncoding) -> Seq<u8> {
    fit_to_width(spec_encode_string(text, encoding), 16)
}

/// The text of one S variable: the bytes before the first zero among the
/// first 16, decoded.
pub open spec fn string_var_text(data: Seq<u8>, encoding: TextEncoding) -> Seq<char> {
    spec_decode_string(before_nul(data.take(if data.len() < 16 { data.len() as int } else { 16 })), encoding)
}

impl HsesPayload for u8 {
    open spec fn serializable(&self) -> bool {
        true
    }

    open spec fn payload_bytes(&self, encoding: TextEncoding) -> Seq<u8> {
        seq![*self]
    }

    open spec fn decodable(data: Seq<u8>) -> bool {
        data.len() >= 1
    }

    open spec fn decodes_to(data: Seq<u8>, encoding: TextEncoding, v: Self) -> bool {
        v == data[0]
    }

    /// A B variable is the single byte.
    fn serialize(&self, encoding: TextEncoding) -> (r: Result<Vec<u8>, ProtocolError>) {
        let mut v = Vec::new();
        v.push(*self);
        assert(v@ =~= seq![*self]);
        Ok(v)
    }

    /// The first byte; no bytes at all is an underflow.
    fn deserialize(data: &[u8], encoding: TextEncoding) -> (r: Result<Self, ProtocolError>)
        ensures
            data@.len() == 0 ==> r matches Err(ProtocolError::Underflow),
    {
        if data.len() == 0 {
            return Err(ProtocolError::Underflow);
        }
        Ok(data[0])
    }
}

impl HsesPayload for i16 {
    open spec fn serializable(&self) -> bool {
        true
    }

    open spec fn payload_bytes(&self, encoding: TextEncoding) -> Seq<u8> {
        le_i16(*self)
    }

    open spec fn decodable(data: Seq<u8>) -> bool {
        data.len() >= 2
    }

    open spec fn decodes_to(data: Seq<u8>, encoding: TextEncoding, v: Self) -> bool {
        v == i16_at(data, 0)
    }

    /// An I variable is its two little-endian bytes.
    fn serialize(&self, encoding: TextEncoding) -> (r: Result<Vec<u8>, ProtocolError>) {
        let mut v = Vec::new();
        push_i16_le(&mut v, *self);
        assert(v@ =~= le_i16(*self));
        Ok(v)
    }

    /// The little-endian value of the first two bytes; fewer is an underflow.
    fn deserialize(data: &[u8], encoding: TextEncoding) -> (r: Result<Self, ProtocolError>)
        ensures
            data@.len() < 2 ==> r matches Err(ProtocolError::Underflow),
    {
        if data.len() < 2 {
            return Err(ProtocolError::Underflow);
        }
        Ok(read_i16_le(data, 0))
    }
}

impl HsesPayload for i32 {
    open spec fn serializable(&self) -> bool {
        true
    }

    open spec fn payload_bytes(&self, encoding: TextEncoding) -> Seq<u8> {
        le_i32(*self)
    }

    open spec fn decodable(data: Seq<u8>) -> bool {
        data.len() >= 4
    }

    open spec fn decodes_to(data: Seq<u8>, encoding: TextEncoding, v: Self) -> bool {
        v == i32_at(data, 0)
    }

    /// A D variable is its four little-endian bytes.
    fn serialize(&self, encoding: TextEncoding) -> (r: Result<Vec<u8>, ProtocolError>) {
        let mut v = Vec::new();
        push_i32_le(&mut v, *self);
        assert(v@ =~= le_i32(*self));
        Ok(v)
    }

    /// The little-endian value of the first four bytes; fewer is an underflow.
    fn deserialize(data: &[u8], encoding: TextEncoding) -> (r: Result<Self, ProtocolError>)
        ensures
            data@.len() < 4 ==> r matches Err(ProtocolError::Underflow),
    {
        if data.len() < 4 {
            return Err(ProtocolError::Underflow);
        }
        Ok(read_i32_le(data, 0))
    }
}

impl HsesPayload for [u8; 16] {
    open spec fn serializable(&self) -> bool {
        true
    }

    open spec fn payload_bytes(&self, encoding: TextEncoding) -> Seq<u8> {
        self@
    }

    open spec fn decodable(data: Seq<u8>) -> bool {
        true
    }

    open spec fn decodes_to(data: Seq<u8>, encoding: TextEncoding, v: Self) -> bool {
        v@ == fit_to_width(data, 16)
    }

    /// A raw S variable is its 16 bytes.
    fn serialize(&self, encoding: TextEncoding) -> (r: Result<Vec<u8>, ProtocolError>) {
        let mut v = Vec::new();
        push_fixed_width(&mut v, self.as_slice(), 16);
        assert(fit_to_width(self@, 16) =~= self@);
        assert(v@ =~= self@);
        Ok(v)
    }

    /// The first 16 bytes, zero-padded when there are fewer.
    fn deserialize(data: &[u8], encoding: TextEncoding) -> (r: Result<Self, ProtocolError>) {
        let mut v: Vec<u8> = Vec::new();
        push_fixed_width(&mut v, data, 16);
        let ghost want = fit_to_width(data@, 16);
        assert(v@ =~= want);
        let result: [u8; 16] = [
            v[0], v[1], v[2], v[3], v[4], v[5], v[6], v[7], v[8], v[9], v[10], v[11], v[12],
            v[13], v[14], v[15],
        ];
        assert(result@ =~= want);
        Ok(result)
    }
}

impl HsesPayload for String {
    open spec fn serializable(&self) -> bool {
        true
    }

    open spec fn payload_bytes(&self, encoding: TextEncoding) -> Seq<u8> {
        string_var_bytes(self@, encoding)
    }

    open spec fn decodable(data: Seq<u8>) -> bool {
        true
    }

    open spec fn decodes_to(data: Seq<u8>, encoding: TextEncoding, v: Self) -> bool {
        v@ == string_var_text(data, encoding)
    }

    /// An S variable is the encoded text cut or zero-padded to 16 bytes.
    fn serialize(&self, encoding: TextEncoding) -> (r: Result<Vec<u8>, ProtocolError>) {
        let encoded = encode_string(self.as_str(), encoding);
        let mut v = Vec::new();
        push_fixed_width(&mut v, encoded.as_slice(), 16);
        assert(v@ =~= string_var_bytes(self@, encoding));
        Ok(v)
    }

    /// The text before the first zero byte among the first 16, decoded.
    fn deserialize(data: &[u8], encoding: TextEncoding) -> (r: Result<Self, ProtocolError>) {
        let end = if data.len() < 16 {
            data.len()
        } else {
            16
        };
        let n = find_nul(data, 0, end);
        let text = vstd::slice::slice_subrange(data, 0, n);
        assert(data@.subrange(0, end as int) =~= data@.take(end as int));
        assert(text@ =~= before_nul(data@.take(end as int)));
        Ok(decode_string_with_fallback(text, encoding))
    }
}

impl HsesPayload for Vec<u8> {
    open spec fn serializable(&self) -> bool {
        true
    }

    open spec fn payload_bytes(&self, encoding: TextEncoding) -> Seq<u8> {
        self@
    }

    open spec fn decodable(data: Seq<u8>) -> bool {
        true
    }

    open spec fn decodes_to(data: Seq<u8>, encoding: TextEncoding, v: Self) -> bool {
        v@ == data
    }

    /// Several B variables are their bytes.
    fn serialize(&self, encoding: TextEncoding) -> (r: Result<Vec<u8>, ProtocolError>) {
        Ok(self.clone())
    }

    /// Every byte is one B variable.
    fn deserialize(data: &[u8], encoding: TextEncoding) -> (r: Result<Self, ProtocolError>) {
        Ok(vstd::slice::slice_to_vec(data))
    }
}

impl HsesPayload for Vec<i16> {
    open spec fn serializable(&self) -> bool {
        true
    }

    open spec fn payload_bytes(&self, encoding: TextEncoding) -> Seq<u8> {
        i16s_bytes(self@)
    }

    open spec fn decodable(data: Seq<u8>) -> bool {
        data.len() % 2 == 0
    }

    open spec fn decodes_to(data: Seq<u8>, encoding: TextEncoding, v: Self) -> bool {
        &&& v@.len() * 2 == data.len()
        &&& forall|k: int| 0 <= k < v@.len() ==> #[trigger] v@[k] == i16_at(data, 2 * k)
    }

    /// Several I variables are their little-endian bytes one after another.
    fn serialize(&self, encoding: TextEncoding) -> (r: Result<Vec<u8>, ProtocolError>) {
        let mut out = Vec::new();
        let mut i: usize = 0;
        while i < self.len()
            invariant
                i <= self@.len(),
                out@ == i16s_bytes(self@.take(i as int)),
            decreases self@.len() - i,
        {
            push_i16_le(&mut out, self[i]);
            i = i + 1;
            assert(self@.take(i as int).drop_last() =~= self@.take((i - 1) as int));
        }
        assert(self@.take(i as int) =~= self@);
        Ok(out)
    }

    /// Two bytes per I variable; a length that is not even is refused.
    fn deserialize(data: &[u8], encoding: TextEncoding) -> (r: Result<Self, ProtocolError>)
        ensures
            data@.len() % 2 != 0 ==> (r matches Err(ProtocolError::Deserialization(m)) && m@ == with_number(
                "Invalid data length for i16 array: "@,
                data@.len(),
                " bytes (must be multiple of 2)"@,
            )),
    {
        if data.len() % 2 != 0 {
            return Err(
                ProtocolError::Deserialization(
                    text_with_number(
                        "Invalid data length for i16 array: ",
                        data.len() as u64,
                        " bytes (must be multiple of 2)",
                    ),
                ),
            );
        }
        let mut result: Vec<i16> = Vec::new();
        let mut off: usize = 0;
        while off < data.len()
            invariant
                off % 2 == 0,
                off <= data@.len(),
                data@.len() % 2 == 0,
                result@.len() * 2 == off,
                forall|k: int| 0 <= k < result@.len() ==> #[trigger] result@[k] == i16_at(data@, 2 * k),
            decreases data@.len() - off,
        {
            result.push(read_i16_le(data, off));
            off = off + 2;
        }
        Ok(result)
    }
}

impl HsesPayload for Vec<i32> {
    open spec fn serializable(&self) -> bool {
        true
    }

    open spec fn payload_bytes(&self, encoding: TextEncoding) -> Seq<u8> {
        i32s_bytes(self@)
    }

    open spec fn decodable(data: Seq<u8>) -> bool {
        data.len() % 4 == 0
    }

    open spec fn decodes_to(data: Seq<u8>, encoding: TextEncoding, v: Self) -> bool {
        &&& v@.len() * 4 == data.len()
        &&& forall|k: int| 0 <= k < v@.len() ==> #[trigger] v@[k] == i32_at(data, 4 * k)
    }

    /// Several D variables are their little-endian bytes one after another.
    fn serialize(&self, encoding: TextEncoding) -> (r: Result<Vec<u8>, ProtocolError>) {
        let mut out = Vec::new();
        let mut i: usize = 0;
        while i < self.len()
            invariant
                i <= self@.len(),
                out@ == i32s_bytes(self@.take(i as int)),
            decreases self@.len() - i,
        {
            push_i32_le(&mut out, self[i]);
            i = i + 1;
            assert(self@.take(i as int).drop_last() =~= self@.take((i - 1) as int));
        }
        assert(self@.take(i as int) =~= self@);
        Ok(out)
    }

    /// Four bytes per D variable; a length that is not a multiple of 4 is refused.
    fn deserialize(data: &[u8], encoding: TextEncoding) -> (r: Result<Self, ProtocolError>)
        ensures
            data@.len() % 4 != 0 ==> (r matches Err(ProtocolError::Deserialization(m)) && m@ == with_number(
                "Invalid data length for i32 array: "@,
                data@.len(),
                " bytes (must be multiple of 4)"@,
            )),
    {
        if data.len() % 4 != 0 {
            return Err(
                ProtocolError::Deserialization(
                    text_with_number(
                        "Invalid data length for i32 array: ",
                        data.len() as u64,
                        " bytes (must be multiple of 4)",
                    ),
                ),
            );
        }
        let mut result: Vec<i32> = Vec::new();
        let mut off: usize = 0;
        while off < data.len()
            invariant
                off % 4 == 0,
                off <= data@.len(),
                data@.len() % 4 == 0,
                result@.len() * 4 == off,
                forall|k: int| 0 <= k < result@.len() ==> #[trigger] result@[k] == i32_at(data@, 4 * k),
            decreases data@.len() - off,
        {
            result.push(read_i32_le(data, off));
            off = off + 4;
        }
        Ok(result)
    }
}

impl HsesPayload for Vec<[u8; 16]> {
    open spec fn serializable(&self) -> bool {
        true
    }

    open spec fn payload_bytes(&self, encoding: TextEncoding) -> Seq<u8> {
        arrays16_bytes(self@)
    }

    open spec fn decodable(data: Seq<u8>) -> bool {
        data.len() % 16 == 0
    }

    open spec fn decodes_to(data: Seq<u8>, encoding: TextEncoding, v: Self) -> bool {
        &&& v@.len() * 16 == data.len()
        &&& forall|k: int|
            0 <= k < v@.len() ==> #[trigger] v@[k]@ == data.subrange(16 * k, 16 * k + 16)
    }

    /// Several raw S variables are their 16-byte arrays one after another.
    fn serialize(&self, encoding: TextEncoding) -> (r: Result<Vec<u8>, ProtocolError>) {
        let mut out = Vec::new();
        let mut i: usize = 0;
        while i < self.len()
            invariant
                i <= self@.len(),
                out@ == arrays16_bytes(self@.take(i as int)),
            decreases self@.len() - i,
        {
            let item: [u8; 16] = self[i];
            push_fixed_width(&mut out, item.as_slice(), 16);
            assert(fit_to_width(item@, 16) =~= item@);
            i = i + 1;
            assert(self@.take(i as int).drop_last() =~= self@.take((i - 1) as int));
        }
        assert(self@.take(i as int) =~= self@);
        Ok(out)
    }

    /// Sixteen bytes per S variable; a length that is not a multiple of 16 is refused.
    fn deserialize(data: &[u8], encoding: TextEncoding) -> (r: Result<Self, ProtocolError>)
        ensures
            data@.len() % 16 != 0 ==> (r matches Err(ProtocolError::Deserialization(m)) && m@ == with_number(
                "Invalid data length for [u8; 16] array: "@,
                data@.len(),
                " bytes (must be multiple of 16)"@,
            )),
    {
        if data.len() % 16 != 0 {
            return Err(
                ProtocolError::Deserialization(
                    text_with_number(
                        "Invalid data length for [u8; 16] array: ",
                        data.len() as u64,
                        " bytes (must be multiple of 16)",
                    ),
                ),
            );
        }
        let mut result: Vec<[u8; 16]> = Vec::new();
        let mut off: usize = 0;
        while off < data.len()
            invariant
                off % 16 == 0,
                off <= data@.len(),
                data@.len() % 16 == 0,
                result@.len() * 16 == off,
                forall|k: int|
                    0 <= k < result@.len() ==> #[trigger] result@[k]@ == data@.subrange(16 * k, 16 * k + 16),
            decreases data@.len() - off,
        {
            let chunk = vstd::slice::slice_subrange(data, off, off + 16);
            let item = <[u8; 16] as HsesPayload>::deserialize(chunk, encoding);
            match item {
                Ok(a) => {
                    assert(fit_to_width(chunk@, 16) =~= chunk@);
                    result.push(a);
                },
                Err(_) => {
                    assert(false);
                },
            }
            off = off + 16;
        }
        Ok(result)
    }
}

/// An I variable read back from its own bytes is the same value; likewise a D variable.
pub proof fn law_scalar_variable_roundtrip(a: i16, b: i32, encoding: TextEncoding)
    ensures
        <i16 as HsesPayload>::decodable(a.payload_bytes(encoding)),
        forall|w: i16| <i16 as HsesPayload>::decodes_to(a.payload_bytes(encoding), encoding, w) ==> w == a,
        <i32 as HsesPayload>::decodable(b.payload_bytes(encoding)),
        forall|w: i32| <i32 as HsesPayload>::decodes_to(b.payload_bytes(encoding), encoding, w) ==> w == b,
{
    lemma_i16_roundtrip(a);
    lemma_i32_roundtrip(b);
}

/// Several I variables read back from their own bytes are the same variables.
pub proof fn law_i16s_roundtrip(values: Vec<i16>, decoded: Vec<i16>, encoding: TextEncoding)
    ensures
        <Vec<i16> as HsesPayload>::decodable(values.payload_bytes(encoding)),
        <Vec<i16> as HsesPayload>::decodes_to(values.payload_bytes(encoding), encoding, decoded)
            ==> decoded@ == values@,
{
    let f = |v: i16| le_i16(v);
    let data = i16s_bytes(values@);
    lemma_flatten_map_fixed(values@, f, 2);
    if <Vec<i16> as HsesPayload>::decodes_to(data, encoding, decoded) {
        assert forall|k: int| 0 <= k < values@.len() implies decoded@[k] == values@[k] by {
            let part = data.subrange(k * 2, k * 2 + 2);
            assert(part == f(values@[k]));
            lemma_i16_roundtrip(values@[k]);
            assert(data[2 * k] == part[0]);
            assert(data[2 * k + 1] == part[1]);
        }
        assert(decoded@ =~= values@);
    }
}

/// Several D variables read back from their own bytes are the same variables.
pub proof fn law_i32s_roundtrip(values: Vec<i32>, decoded: Vec<i32>, encoding: TextEncoding)
    ensures
        <Vec<i32> as HsesPayload>::decodable(values.payload_bytes(encoding)),
        <Vec<i32> as HsesPayload>::decodes_to(values.payload_bytes(encoding), encoding, decoded)
            ==> decoded@ == values@,
{
    let f = |v: i32| le_i32(v);
    let data = i32s_bytes(values@);
    lemma_flatten_map_fixed(values@, f, 4);
    if <Vec<i32> as HsesPayload>::decodes_to(data, encoding, decoded) {
        assert forall|k: int| 0 <= k < values@.len() implies decoded@[k] == values@[k] by {
            let part = data.subrange(k * 4, k * 4 + 4);
            assert(part == f(values@[k]));
            lemma_i32_roundtrip(values@[k]);
            assert(data[4 * k] == part[0]);
            assert(data[4 * k + 1] == part[1]);
            assert(data[4 * k + 2] == part[2]);
            assert(data[4 * k + 3] == part[3]);
        }
        assert(decoded@ =~= values@);
    }
}

} // verus!
