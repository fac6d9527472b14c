//! Encoding text to bytes and decoding it back, through `encoding_rs`.

use crate::encoding::TextEncoding;
use vstd::prelude::*;
use vstd::utf8::*;

verus! {

/// What `encoding_rs::Encoding::encode` makes of `text`, with the `Shift_JIS`
/// encoder when `shift_jis` holds and the UTF-8 one otherwise.
pub uninterp spec fn encoding_rs_encode(shift_jis: bool, text: Seq<char>) -> Seq<u8>;

/// What `encoding_rs::Encoding::decode` makes of `bytes` (the text, and whether
/// malformed sequences were replaced), with the `Shift_JIS` decoder when
/// `shift_jis` holds and the UTF-8 one otherwise.
pub uninterp spec fn encoding_rs_decode(shift_jis: bool, bytes: Seq<u8>) -> (Seq<char>, bool);

/// What `String::from_utf8_lossy` makes of `bytes`.
pub uninterp spec fn utf8_lossy(bytes: Seq<u8>) -> Seq<char>;

/// Every byte is below 0x80.
pub open spec fn is_ascii_bytes(bytes: Seq<u8>) -> bool {
    forall|i: int| 0 <= i < bytes.len() ==> bytes[i] < 0x80
}

/// The characters of ASCII bytes, one for one.
pub open spec fn ascii_chars(bytes: Seq<u8>) -> Seq<char> {
    Seq::new(bytes.len(), |i: int| bytes[i] as char)
}

/// The bytes start with a byte order mark that `encoding_rs` sniffs
/// (UTF-8 `EF BB BF`, UTF-16LE `FF FE` or UTF-16BE `FE FF`).
pub open spec fn starts_with_bom(bytes: Seq<u8>) -> bool {
    ||| bytes.len() >= 3 && bytes[0] == 0xEF && bytes[1] == 0xBB && bytes[2] == 0xBF
    ||| bytes.len() >= 2 && bytes[0] == 0xFF && bytes[1] == 0xFE
    ||| bytes.len() >= 2 && bytes[0] == 0xFE && bytes[1] == 0xFF
}

/// `encoding_rs::UTF_8.encode(string)`: the encoder hands back the string's
/// own UTF-8 bytes.
#[verifier::external_body]
fn encode_utf8_text(string: &str) -> (r: Vec<u8>)
    ensures
        r@ == encoding_rs_encode(false, string@),
        r@ == encode_utf8(string@),
{
    let (bytes, _used, _unmappable) = encoding_rs::UTF_8.encode(string);
    bytes.into_owned()
}

/// `encoding_rs::SHIFT_JIS.encode(string)`: its result is named; an
/// ASCII-only string is handed back as its own bytes. What the encoder makes
/// of other characters is left unsaid.
#[verifier::external_body]
fn encode_shift_jis_text(string: &str) -> (r: Vec<u8>)
    ensures
        r@ == encoding_rs_encode(true, string@),
        is_ascii_chars(string@) ==> r@ == encode_utf8(string@),
{
    let (bytes, _used, _unmappable) = encoding_rs::SHIFT_JIS.encode(string);
    bytes.into_owned()
}

/// `encoding_rs::UTF_8.decode(bytes)`: its result is named; valid UTF-8
/// that starts with no byte order mark decodes to its characters without
/// errors. What the decoder makes of other input is left unsaid.
#[verifier::external_body]
fn decode_utf8_text(bytes: &[u8]) -> (r: (String, bool))
    ensures
        (r.0@, r.1) == encoding_rs_decode(false, bytes@),
        valid_utf8(bytes@) && !starts_with_bom(bytes@) ==> r.0@ == decode_utf8(bytes@) && !r.1,
{
    let (text, _used, had_errors) = encoding_rs::UTF_8.decode(bytes);
    (text.into_owned(), had_errors)
}

/// `encoding_rs::SHIFT_JIS.decode(bytes)`: its result is named; ASCII
/// bytes decode to the same characters without errors. What the decoder makes
/// of other input is left unsaid.
#[verifier::external_body]
fn decode_shift_jis_text(bytes: &[u8]) -> (r: (String, bool))
    ensures
        (r.0@, r.1) == encoding_rs_decode(true, bytes@),
        is_ascii_bytes(bytes@) ==> r.0@ == ascii_chars(bytes@) && !r.1,
{
    let (text, _used, had_errors) = encoding_rs::SHIFT_JIS.decode(bytes);
    (text.into_owned(), had_errors)
}

/// `String::from_utf8_lossy(bytes)`: its result is named; valid UTF-8
/// decodes to its characters.
#[verifier::external_body]
fn utf8_lossy_text(bytes: &[u8]) -> (r: String)
    ensures
        r@ == utf8_lossy(bytes@),
        valid_utf8(bytes@) ==> r@ == decode_utf8(bytes@),
{
    String::from_utf8_lossy(bytes).into_owned()
}

/// The bytes that `text` encodes to: its UTF-8 bytes with the UTF-8
/// encoder, and also with the `Shift_JIS` one when the text is ASCII.
pub open spec fn spec_encode_string(text: Seq<char>, encoding: TextEncoding) -> Seq<u8> {
    if encoding is Utf8 || is_ascii_chars(text) {
        encode_utf8(text)
    } else {
        encoding_rs_encode(true, text)
    }
}

/// The text that `bytes` decode to: the characters of valid UTF-8 without a
/// byte order mark with the UTF-8 decoder, the characters of ASCII bytes with
/// the `Shift_JIS` decoder, and otherwise the decoder's result, or the lossy
/// UTF-8 reading of the bytes when the decoder met malformed input.
pub open spec fn spec_decode_string(bytes: Seq<u8>, encoding: TextEncoding) -> Seq<char> {
    if encoding is Utf8 && valid_utf8(bytes) && !starts_with_bom(bytes) {
        decode_utf8(bytes)
    } else if encoding is ShiftJis && is_ascii_bytes(bytes) {
        ascii_chars(bytes)
    } else {
        let (text, had_errors) = encoding_rs_decode(encoding.is_shift_jis(), bytes);
        if had_errors {
            utf8_lossy(bytes)
        } else {
            text
        }
    }
}

/// Decode bytes to a string with the given encoding, falling back to lossy
/// UTF-8 decoding when the encoding meets malformed input.
pub fn decode_string_with_fallback(bytes: &[u8], encoding: TextEncoding) -> (r: String)
    ensures
        r@ == spec_decode_string(bytes@, encoding),
{
    let (decoded, had_errors) = match encoding {
        TextEncoding::Utf8 => decode_utf8_text(bytes),
        TextEncoding::ShiftJis => decode_shift_jis_text(bytes),
    };
    if had_errors {
        utf8_lossy_text(bytes)
    } else {
        decoded
    }
}

/// Encode a string to bytes with the given encoding.
pub fn encode_string(string: &str, encoding: TextEncoding) -> (r: Vec<u8>)
    ensures
        r@ == spec_encode_string(string@, encoding),
{
    match encoding {
        TextEncoding::Utf8 => encode_utf8_text(string),
        TextEncoding::ShiftJis => encode_shift_jis_text(string),
    }
}

/// UTF-8 text whose encoding does not start with a byte order mark decodes
/// back to itself.
pub proof fn law_utf8_roundtrip(text: Seq<char>)
    requires
        !starts_with_bom(encode_utf8(text)),
    ensures
        spec_decode_string(spec_encode_string(text, TextEncoding::Utf8), TextEncoding::Utf8)
            == text,
{
    broadcast use encode_utf8_decode_utf8, encode_utf8_valid_utf8;

}

/// ASCII text decodes back to itself in either encoding.
pub proof fn law_ascii_roundtrip(text: Seq<char>, encoding: TextEncoding)
    requires
        is_ascii_chars(text),
    ensures
        spec_decode_string(spec_encode_string(text, encoding), encoding) == text,
{
    broadcast use is_ascii_chars_encode_utf8, encode_utf8_decode_utf8, encode_utf8_valid_utf8;

    let b = encode_utf8(text);
    assert(is_ascii_bytes(b));
    assert(ascii_chars(b) =~= text);
    if encoding is Utf8 {
        assert(!starts_with_bom(b));
    }
}

} // verus!
