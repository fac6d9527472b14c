//! Text encodings that HSES strings may use.

use encoding_rs::Encoding;
use vstd::prelude::*;

verus! {

#[verifier::external_type_specification]
#[verifier::external_body]
pub struct ExEncoding(Encoding);

/// Supported text encodings for HSES protocol.
#[derive(Debug, Clone, Copy, PartialEq, Eq)]
pub enum TextEncoding {
    /// UTF-8 (the default).
    Utf8,
    /// `Shift_JIS` (common on Japanese controllers).
    ShiftJis,
}

impl Default for TextEncoding {
    fn default() -> (r: Self)
        ensures
            r == TextEncoding::Utf8,
    {
        TextEncoding::Utf8
    }
}

/// `encoding_rs::UTF_8`, the encoder and decoder of UTF-8.
#[verifier::external_body]
fn utf8_encoding() -> &'static Encoding {
    encoding_rs::UTF_8
}

/// `encoding_rs::SHIFT_JIS`, the encoder and decoder of `Shift_JIS`.
#[verifier::external_body]
fn shift_jis_encoding() -> &'static Encoding {
    encoding_rs::SHIFT_JIS
}

impl TextEncoding {
    /// The `encoding_rs` encoding that implements this text encoding.
    pub fn to_encoding(&self) -> &'static Encoding {
        match self {
            TextEncoding::Utf8 => utf8_encoding(),
            TextEncoding::ShiftJis => shift_jis_encoding(),
        }
    }

    /// Whether this is `Shift_JIS`.
    pub open spec fn is_shift_jis(self) -> bool {
        self is ShiftJis
    }
}

} // verus!
