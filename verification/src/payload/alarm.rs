//! Alarm data (commands 0x70 and 0x71).

use crate::encoding::TextEncoding;
use crate::encoding_utils::{
    decode_string_with_fallback, encode_string, spec_decode_string, spec_encode_string, starts_with_bom,
};
use crate::error::ProtocolError;
use crate::payload::payload_trait::HsesPayload;
use crate::wire::{
    before_nul, find_nul, fit_to_width, le_u32, lemma_u32_roundtrip, push_fixed_width,
    push_u32_le, read_u32_le, u32_at,
};
use vstd::prelude::*;
use vstd::utf8::{
    encode_scalar, encode_utf8, has_width_1_encoding, last_continuation_byte, leading_byte_width_1,
    leading_byte_width_2, leading_byte_width_3, leading_byte_width_4, second_last_continuation_byte,
    third_last_continuation_byte,
};

pub mod test_alarms;

verus! {

/// Alarm data: code, data, type, time, name and sub-code texts.
#[derive(Debug, Clone)]
pub struct Alarm {
    pub code: u32,
    pub data: u32,
    pub alarm_type: u32,
    pub time: String,
    pub name: String,
    pub sub_code_info: String,
    pub sub_code_data: String,
    pub sub_code_reverse: String,
}

/// A text field of `width` bytes: the encoded text, cut or zero-padded.
pub open spec fn text_field(text: Seq<char>, width: nat, encoding: TextEncoding) -> Seq<u8> {
    fit_to_width(spec_encode_string(text, encoding), width)
}

/// The text of a field: the bytes before its first zero byte, decoded.
pub open spec fn field_text(field: Seq<u8>, encoding: TextEncoding) -> Seq<char> {
    spec_decode_string(before_nul(field), encoding)
}

/// The bytes of one alarm attribute (1 code, 2 data, 3 type, 4 time, 5 name,
/// 6 sub-code info, 7 sub-code data, 8 sub-code reverse).
pub open spec fn alarm_attribute_bytes(a: Alarm, attribute: u8, encoding: TextEncoding) -> Seq<u8> {
    if attribute == 1 {
        le_u32(a.code)
    } else if attribute == 2 {
        le_u32(a.data)
    } else if attribute == 3 {
        le_u32(a.alarm_type)
    } else if attribute == 4 {
        text_field(a.time@, 16, encoding)
    } else if attribute == 5 {
        text_field(a.name@, 32, encoding)
    } else if attribute == 6 {
        text_field(a.sub_code_info@, 16, encoding)
    } else if attribute == 7 {
        text_field(a.sub_code_data@, 96, encoding)
    } else {
        text_field(a.sub_code_reverse@, 96, encoding)
    }
}

/// The 268 bytes of a complete alarm: code, data and type (4 bytes each),
/// time (16), name (32), sub-code info (16), data (96) and reverse (96).
pub open spec fn alarm_bytes(a: Alarm, encoding: TextEncoding) -> Seq<u8> {
    le_u32(a.code) + le_u32(a.data) + le_u32(a.alarm_type) + text_field(a.time@, 16, encoding)
        + text_field(a.name@, 32, encoding) + text_field(a.sub_code_info@, 16, encoding)
        + text_field(a.sub_code_data@, 96, encoding) + text_field(
        a.sub_code_reverse@,
        96,
        encoding,
    )
}

/// Whether `a` is the alarm that at least 60 bytes hold: code, data and type,
/// then the time (bytes 12-27) and name (bytes 28-59), with empty sub-codes.
pub open spec fn alarm_of_bytes(data: Seq<u8>, encoding: TextEncoding, a: Alarm) -> bool {
    &&& a.code == u32_at(data, 0)
    &&& a.data == u32_at(data, 4)
    &&& a.alarm_type == u32_at(data, 8)
    &&& a.time@ == field_text(data.subrange(12, 28), encoding)
    &&& a.name@ == field_text(data.subrange(28, 60), encoding)
    &&& a.sub_code_info@ == Seq::<char>::empty()
    &&& a.sub_code_data@ == Seq::<char>::empty()
    &&& a.sub_code_reverse@ == Seq::<char>::empty()
}

/// Appends the encoded text, cut or zero-padded to `width` bytes.
pub(crate) fn push_text_field(out: &mut Vec<u8>, text: &String, width: usize, encoding: TextEncoding)
    ensures
        final(out)@ == old(out)@ + text_field(text@, width as nat, encoding),
{
    let bytes = encode_string(text.as_str(), encoding);
    push_fixed_width(out, bytes.as_slice(), width);
}

/// Decodes the bytes of `data[start..end]` that come before the first zero byte.
pub(crate) fn read_text_field(data: &[u8], start: usize, end: usize, encoding: TextEncoding) -> (r: String)
    requires
        start <= end <= data@.len(),
    ensures
        r@ == field_text(data@.subrange(start as int, end as int), encoding),
{
    let n = find_nul(data, start, end);
    let text = vstd::slice::slice_subrange(data, start, start + n);
    assert(text@ =~= before_nul(data@.subrange(start as int, end as int)));
    decode_string_with_fallback(text, encoding)
}

impl Alarm {
    /// An alarm with empty sub-code texts.
    pub fn new(code: u32, data: u32, alarm_type: u32, time: String, name: String) -> (r: Self)
        ensures
            r.code == code,
            r.data == data,
            r.alarm_type == alarm_type,
            r.time@ == time@,
            r.name@ == name@,
            r.sub_code_info@ == Seq::<char>::empty(),
            r.sub_code_data@ == Seq::<char>::empty(),
            r.sub_code_reverse@ == Seq::<char>::empty(),
    {
        Self {
            code,
            data,
            alarm_type,
            time,
            name,
            sub_code_info: String::new(),
            sub_code_data: String::new(),
            sub_code_reverse: String::new(),
        }
    }

    /// The same alarm with these sub-code texts.
    pub fn with_sub_code(self, info: String, data: String, reverse: String) -> (r: Self)
        ensures
            r.code == self.code,
            r.data == self.data,
            r.alarm_type == self.alarm_type,
            r.time@ == self.time@,
            r.name@ == self.name@,
            r.sub_code_info@ == info@,
            r.sub_code_data@ == data@,
            r.sub_code_reverse@ == reverse@,
    {
        let mut a = self;
        a.sub_code_info = info;
        a.sub_code_data = data;
        a.sub_code_reverse = reverse;
        a
    }

    /// The bytes of one attribute (1-8); any other attribute is invalid.
    pub fn serialize(&self, attribute: u8, encoding: TextEncoding) -> (r: Result<Vec<u8>, ProtocolError>)
        ensures
            1 <= attribute <= 8 ==> (r matches Ok(bytes) && bytes@ == alarm_attribute_bytes(
                *self,
                attribute,
                encoding,
            )),
            !(1 <= attribute <= 8) ==> r matches Err(ProtocolError::InvalidAttribute),
    {
        let mut data = Vec::new();
        if attribute == 1 {
            push_u32_le(&mut data, self.code);
        } else if attribute == 2 {
            push_u32_le(&mut data, self.data);
        } else if attribute == 3 {
            push_u32_le(&mut data, self.alarm_type);
        } else if attribute == 4 {
            push_text_field(&mut data, &self.time, 16, encoding);
        } else if attribute == 5 {
            push_text_field(&mut data, &self.name, 32, encoding);
        } else if attribute == 6 {
            push_text_field(&mut data, &self.sub_code_info, 16, encoding);
        } else if attribute == 7 {
            push_text_field(&mut data, &self.sub_code_data, 96, encoding);
        } else if attribute == 8 {
            push_text_field(&mut data, &self.sub_code_reverse, 96, encoding);
        } else {
            return Err(ProtocolError::InvalidAttribute);
        }
        assert(data@ =~= alarm_attribute_bytes(*self, attribute, encoding));
        Ok(data)
    }

    /// The 268 bytes of all attributes.
    pub fn serialize_complete(&self, encoding: TextEncoding) -> (r: Result<Vec<u8>, ProtocolError>)
        ensures
            r matches Ok(bytes) && bytes@ == alarm_bytes(*self, encoding),
    {
        let mut data = Vec::new();
        push_u32_le(&mut data, self.code);
        push_u32_le(&mut data, self.data);
        push_u32_le(&mut data, self.alarm_type);
        push_text_field(&mut data, &self.time, 16, encoding);
        push_text_field(&mut data, &self.name, 32, encoding);
        push_text_field(&mut data, &self.sub_code_info, 16, encoding);
        push_text_field(&mut data, &self.sub_code_data, 96, encoding);
        push_text_field(&mut data, &self.sub_code_reverse, 96, encoding);
        assert(data@ =~= alarm_bytes(*self, encoding));
        Ok(data)
    }

    /// Reads an alarm from at least 60 bytes (code, data, type, time and
    /// name); fewer are a deserialization error.
    pub fn deserialize(data: &[u8], text_encoding: TextEncoding) -> (r: Result<Self, ProtocolError>)
        ensures
            data@.len() < 60 ==> (r matches Err(ProtocolError::Deserialization(m)) && m@
                == "Insufficient data length"@),
            data@.len() >= 60 ==> (r matches Ok(a) && alarm_of_bytes(data@, text_encoding, a)),
    {
        if data.len() < 60 {
            return Err(ProtocolError::Deserialization("Insufficient data length".to_string()));
        }
        let code = read_u32_le(data, 0);
        let alarm_data = read_u32_le(data, 4);
        let alarm_type = read_u32_le(data, 8);
        let time = read_text_field(data, 12, 28, text_encoding);
        let name = read_text_field(data, 28, 60, text_encoding);
        Ok(
            Self {
                code,
                data: alarm_data,
                alarm_type,
                time,
                name,
                sub_code_info: String::new(),
                sub_code_data: String::new(),
                sub_code_reverse: String::new(),
            },
        )
    }
}

impl Default for Alarm {
    /// No alarm: all numbers 0, time "2024/01/01 00:00", name "No Alarm".
    fn default() -> (r: Self)
        ensures
            r.code == 0,
            r.data == 0,
            r.alarm_type == 0,
            r.time@ == "2024/01/01 00:00"@,
            r.name@ == "No Alarm"@,
            r.sub_code_info@ == Seq::<char>::empty(),
            r.sub_code_data@ == Seq::<char>::empty(),
            r.sub_code_reverse@ == Seq::<char>::empty(),
    {
        Self {
            code: 0,
            data: 0,
            alarm_type: 0,
            time: "2024/01/01 00:00".to_string(),
            name: "No Alarm".to_string(),
            sub_code_info: String::new(),
            sub_code_data: String::new(),
            sub_code_reverse: String::new(),
        }
    }
}

impl HsesPayload for Alarm {
    open spec fn serializable(&self) -> bool {
        true
    }

    open spec fn payload_bytes(&self, encoding: TextEncoding) -> Seq<u8> {
        alarm_bytes(*self, encoding)
    }

    open spec fn decodable(data: Seq<u8>) -> bool {
        data.len() >= 60
    }

    open spec fn decodes_to(data: Seq<u8>, encoding: TextEncoding, v: Self) -> bool {
        alarm_of_bytes(data, encoding, v)
    }

    /// All attributes.
    fn serialize(&self, encoding: TextEncoding) -> (r: Result<Vec<u8>, ProtocolError>) {
        self.serialize_complete(encoding)
    }

    /// Code, data, type, time and name.
    fn deserialize(data: &[u8], encoding: TextEncoding) -> (r: Result<Self, ProtocolError>) {
        Alarm::deserialize(data, encoding)
    }
}

/// A text that is ASCII, holds no NUL character and fits its field reads back
/// from the field unchanged.
pub proof fn lemma_text_field_roundtrip(text: Seq<char>, width: nat, encoding: TextEncoding)
    requires
        vstd::utf8::is_ascii_chars(text),
        text.len() <= width,
        forall|i: int| 0 <= i < text.len() ==> text[i] != '\0',
    ensures
        field_text(text_field(text, width, encoding), encoding) == text,
{
    broadcast use vstd::utf8::is_ascii_chars_encode_utf8;

    let b = spec_encode_string(text, encoding);
    assert(b == vstd::utf8::encode_utf8(text));
    assert(b.len() == text.len());
    let f = text_field(text, width, encoding);
    assert(forall|i: int| 0 <= i < b.len() ==> b[i] == text[i] as u8);
    assert forall|i: int| 0 <= i < b.len() implies b[i] != 0 by {
        assert(text[i] != '\0');
        assert(text[i] as u8 == b[i]);
    }
    assert forall|j: int| 0 <= j < b.len() implies f[j] != 0 by {
        assert(f[j] == b[j]);
    }
    if b.len() < width {
        assert(f[b.len() as int] == 0);
    }
    crate::wire::lemma_nul_index(f, b.len() as int);
    assert(before_nul(f) =~= b);
    crate::encoding_utils::law_ascii_roundtrip(text, encoding);
}

/// The UTF-8 bytes of a scalar other than U+0000 are none of them zero.
proof fn lemma_scalar_bytes_nonzero(v: u32)
    requires
        v != 0,
    ensures
        forall|i: int| 0 <= i < encode_scalar(v).len() ==> #[trigger] encode_scalar(v)[i] != 0,
{
    assert(has_width_1_encoding(v) && v != 0 ==> leading_byte_width_1(v) != 0) by (bit_vector);
    assert(leading_byte_width_2(v) != 0) by (bit_vector);
    assert(leading_byte_width_3(v) != 0) by (bit_vector);
    assert(leading_byte_width_4(v) != 0) by (bit_vector);
    assert(last_continuation_byte(v) != 0) by (bit_vector);
    assert(second_last_continuation_byte(v) != 0) by (bit_vector);
    assert(third_last_continuation_byte(v) != 0) by (bit_vector);
}

/// Text without NUL characters has no zero byte in its UTF-8 encoding.
pub proof fn lemma_utf8_without_nul(chars: Seq<char>)
    requires
        forall|i: int| 0 <= i < chars.len() ==> chars[i] != '\0',
    ensures
        forall|j: int| 0 <= j < encode_utf8(chars).len() ==> #[trigger] encode_utf8(chars)[j] != 0,
    decreases chars.len(),
{
    if chars.len() > 0 {
        let c = chars[0];
        assert(c != '\0');
        assert((c as u32) != 0) by {
            vstd::utf8::char_u32_cast(c, c as u32);
            assert((0u32 as char) == '\0');
        }
        vstd::utf8::char_is_scalar(c);
        lemma_scalar_bytes_nonzero(c as u32);
        let rest = chars.drop_first();
        assert forall|i: int| 0 <= i < rest.len() implies rest[i] != '\0' by {
            assert(rest[i] == chars[i + 1]);
        }
        lemma_utf8_without_nul(rest);
        let head = encode_scalar(c as u32);
        let e = encode_utf8(chars);
        assert(e == head + encode_utf8(rest));
        assert forall|j: int| 0 <= j < e.len() implies #[trigger] e[j] != 0 by {
            if j < head.len() {
                assert(e[j] == head[j]);
            } else {
                assert(e[j] == encode_utf8(rest)[j - head.len()]);
            }
        }
    }
}

/// With the UTF-8 encoding, text without NUL characters whose bytes fit
/// the field and do not start with a byte order mark reads back from its
/// field as itself.
pub proof fn lemma_text_field_utf8_roundtrip(text: Seq<char>, width: nat)
    requires
        encode_utf8(text).len() <= width,
        forall|i: int| 0 <= i < text.len() ==> text[i] != '\0',
        !starts_with_bom(encode_utf8(text)),
    ensures
        field_text(text_field(text, width, TextEncoding::Utf8), TextEncoding::Utf8) == text,
{
    let b = spec_encode_string(text, TextEncoding::Utf8);
    assert(b == encode_utf8(text));
    lemma_utf8_without_nul(text);
    let f = text_field(text, width, TextEncoding::Utf8);
    assert forall|j: int| 0 <= j < b.len() implies f[j] != 0 by {
        assert(f[j] == b[j]);
    }
    if b.len() < width {
        assert(f[b.len() as int] == 0);
    }
    crate::wire::lemma_nul_index(f, b.len() as int);
    assert(before_nul(f) =~= b);
    crate::encoding_utils::law_utf8_roundtrip(text);
}

/// Where each field of an alarm stands in its 268 bytes.
proof fn lemma_alarm_bytes_layout(a: Alarm, encoding: TextEncoding)
    ensures
        alarm_bytes(a, encoding).len() == 268,
        alarm_bytes(a, encoding).subrange(0, 4) == le_u32(a.code),
        alarm_bytes(a, encoding).subrange(4, 8) == le_u32(a.data),
        alarm_bytes(a, encoding).subrange(8, 12) == le_u32(a.alarm_type),
        alarm_bytes(a, encoding).subrange(12, 28) == text_field(a.time@, 16, encoding),
        alarm_bytes(a, encoding).subrange(28, 60) == text_field(a.name@, 32, encoding),
{
    let p0 = le_u32(a.code);
    let p1 = le_u32(a.data);
    let p2 = le_u32(a.alarm_type);
    let t = text_field(a.time@, 16, encoding);
    let n = text_field(a.name@, 32, encoding);
    let rest = text_field(a.sub_code_info@, 16, encoding) + text_field(a.sub_code_data@, 96, encoding)
        + text_field(a.sub_code_reverse@, 96, encoding);
    let s = alarm_bytes(a, encoding);
    assert(s =~= p0 + p1 + p2 + t + n + rest);
    assert(s.subrange(0, 4) =~= p0);
    assert(s.subrange(4, 8) =~= p1);
    assert(s.subrange(8, 12) =~= p2);
    assert(s.subrange(12, 28) =~= t);
    assert(s.subrange(28, 60) =~= n);
}

/// An alarm read back from its own bytes has the same code, data and type,
/// and the same time and name when they have no NUL characters, fit their
/// fields (16 and 32 bytes) and are ASCII, or, with the UTF-8 encoding, are
/// any text whose bytes do not start with a byte order mark.
pub proof fn law_alarm_roundtrip(a: Alarm, encoding: TextEncoding, b: Alarm)
    requires
        alarm_of_bytes(alarm_bytes(a, encoding), encoding, b),
    ensures
        alarm_bytes(a, encoding).len() == 268,
        b.code == a.code,
        b.data == a.data,
        b.alarm_type == a.alarm_type,
        vstd::utf8::is_ascii_chars(a.time@) && a.time@.len() <= 16 && (forall|i: int|
            0 <= i < a.time@.len() ==> a.time@[i] != '\0') ==> b.time@ == a.time@,
        vstd::utf8::is_ascii_chars(a.name@) && a.name@.len() <= 32 && (forall|i: int|
            0 <= i < a.name@.len() ==> a.name@[i] != '\0') ==> b.name@ == a.name@,
        encoding is Utf8 && encode_utf8(a.time@).len() <= 16 && !starts_with_bom(encode_utf8(a.time@))
            && (forall|i: int| 0 <= i < a.time@.len() ==> a.time@[i] != '\0') ==> b.time@ == a.time@,
        encoding is Utf8 && encode_utf8(a.name@).len() <= 32 && !starts_with_bom(encode_utf8(a.name@))
            && (forall|i: int| 0 <= i < a.name@.len() ==> a.name@[i] != '\0') ==> b.name@ == a.name@,
{
    lemma_alarm_bytes_layout(a, encoding);
    lemma_u32_roundtrip(a.code);
    lemma_u32_roundtrip(a.data);
    lemma_u32_roundtrip(a.alarm_type);
    if vstd::utf8::is_ascii_chars(a.time@) && a.time@.len() <= 16 && (forall|i: int|
        0 <= i < a.time@.len() ==> a.time@[i] != '\0') {
        lemma_text_field_roundtrip(a.time@, 16, encoding);
    }
    if vstd::utf8::is_ascii_chars(a.name@) && a.name@.len() <= 32 && (forall|i: int|
        0 <= i < a.name@.len() ==> a.name@[i] != '\0') {
        lemma_text_field_roundtrip(a.name@, 32, encoding);
    }
    if encoding is Utf8 && encode_utf8(a.time@).len() <= 16 && !starts_with_bom(encode_utf8(a.time@))
        && (forall|i: int| 0 <= i < a.time@.len() ==> a.time@[i] != '\0') {
        lemma_text_field_utf8_roundtrip(a.time@, 16);
    }
    if encoding is Utf8 && encode_utf8(a.name@).len() <= 32 && !starts_with_bom(encode_utf8(a.name@))
        && (forall|i: int| 0 <= i < a.name@.len() ==> a.name@[i] != '\0') {
        lemma_text_field_utf8_roundtrip(a.name@, 32);
    }
}


/// Whether `text` fits a text field of `width` bytes in any encoding: ASCII,
/// at most `width` characters, no NUL.
pub open spec fn ascii_fits(text: Seq<char>, width: nat) -> bool {
    &&& vstd::utf8::is_ascii_chars(text)
    &&& text.len() <= width
    &&& forall|i: int| 0 <= i < text.len() ==> text[i] != '\0'
}

/// Each attribute (1-8) of an alarm read alone is exactly its field in the
/// complete 268-byte record (code 0-3, data 4-7, type 8-11, time 12-27, name
/// 28-59, sub-code info 60-75, sub-code data 76-171, sub-code reverse
/// 172-267), and reads back as the value it names: the code, data and type
/// as 32-bit integers, and each text that fits its field as that text.
pub proof fn law_alarm_attribute_is_its_field(a: Alarm, encoding: TextEncoding)
    ensures
        alarm_attribute_bytes(a, 1, encoding) == alarm_bytes(a, encoding).subrange(0, 4),
        alarm_attribute_bytes(a, 2, encoding) == alarm_bytes(a, encoding).subrange(4, 8),
        alarm_attribute_bytes(a, 3, encoding) == alarm_bytes(a, encoding).subrange(8, 12),
        alarm_attribute_bytes(a, 4, encoding) == alarm_bytes(a, encoding).subrange(12, 28),
        alarm_attribute_bytes(a, 5, encoding) == alarm_bytes(a, encoding).subrange(28, 60),
        alarm_attribute_bytes(a, 6, encoding) == alarm_bytes(a, encoding).subrange(60, 76),
        alarm_attribute_bytes(a, 7, encoding) == alarm_bytes(a, encoding).subrange(76, 172),
        alarm_attribute_bytes(a, 8, encoding) == alarm_bytes(a, encoding).subrange(172, 268),
        u32_at(alarm_attribute_bytes(a, 1, encoding), 0) == a.code,
        u32_at(alarm_attribute_bytes(a, 2, encoding), 0) == a.data,
        u32_at(alarm_attribute_bytes(a, 3, encoding), 0) == a.alarm_type,
        ascii_fits(a.time@, 16) ==> field_text(alarm_attribute_bytes(a, 4, encoding), encoding) == a.time@,
        ascii_fits(a.name@, 32) ==> field_text(alarm_attribute_bytes(a, 5, encoding), encoding) == a.name@,
        ascii_fits(a.sub_code_info@, 16) ==> field_text(alarm_attribute_bytes(a, 6, encoding), encoding)
            == a.sub_code_info@,
        ascii_fits(a.sub_code_data@, 96) ==> field_text(alarm_attribute_bytes(a, 7, encoding), encoding)
            == a.sub_code_data@,
        ascii_fits(a.sub_code_reverse@, 96) ==> field_text(alarm_attribute_bytes(a, 8, encoding), encoding)
            == a.sub_code_reverse@,
{
    let p0 = le_u32(a.code);
    let p1 = le_u32(a.data);
    let p2 = le_u32(a.alarm_type);
    let t = text_field(a.time@, 16, encoding);
    let n = text_field(a.name@, 32, encoding);
    let si = text_field(a.sub_code_info@, 16, encoding);
    let sd = text_field(a.sub_code_data@, 96, encoding);
    let sr = text_field(a.sub_code_reverse@, 96, encoding);
    let s = alarm_bytes(a, encoding);
    assert(s =~= p0 + p1 + p2 + t + n + si + sd + sr);
    assert(s.subrange(0, 4) =~= p0);
    assert(s.subrange(4, 8) =~= p1);
    assert(s.subrange(8, 12) =~= p2);
    assert(s.subrange(12, 28) =~= t);
    assert(s.subrange(28, 60) =~= n);
    assert(s.subrange(60, 76) =~= si);
    assert(s.subrange(76, 172) =~= sd);
    assert(s.subrange(172, 268) =~= sr);
    lemma_u32_roundtrip(a.code);
    lemma_u32_roundtrip(a.data);
    lemma_u32_roundtrip(a.alarm_type);
    if ascii_fits(a.time@, 16) {
        lemma_text_field_roundtrip(a.time@, 16, encoding);
    }
    if ascii_fits(a.name@, 32) {
        lemma_text_field_roundtrip(a.name@, 32, encoding);
    }
    if ascii_fits(a.sub_code_info@, 16) {
        lemma_text_field_roundtrip(a.sub_code_info@, 16, encoding);
    }
    if ascii_fits(a.sub_code_data@, 96) {
        lemma_text_field_roundtrip(a.sub_code_data@, 96, encoding);
    }
    if ascii_fits(a.sub_code_reverse@, 96) {
        lemma_text_field_roundtrip(a.sub_code_reverse@, 96, encoding);
    }
}

} // verus!
