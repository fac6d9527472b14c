//! Errors of the HSES protocol library.

use crate::commands::file::response::push_char;
use vstd::prelude::*;
use vstd::string::StringExecFns;

verus! {

/// What can go wrong while building, encoding or decoding HSES messages.
#[derive(Debug, Clone)]
pub enum ProtocolError {
    /// Fewer bytes than the structure needs.
    Underflow,
    /// A message header that does not start with the `YERC` magic.
    InvalidHeader,
    /// A command number this library does not know.
    UnknownCommand(u16),
    /// An operation that is not supported.
    Unsupported,
    /// A value that could not be serialized.
    Serialization(String),
    /// Bytes that could not be deserialized.
    Deserialization(String),
    /// A variable type that is not valid here.
    InvalidVariableType,
    /// A coordinate system type that is not valid here.
    InvalidCoordinateSystemType,
    /// Malformed position data.
    PositionError(String),
    /// A failed file operation.
    FileError(String),
    /// A failed system information request.
    SystemInfoError(String),
    /// Invalid message content or payload (invalid count, range overflow, malformed data).
    InvalidMessage(String),
    /// An error reported by the server.
    ServerError(String),
    /// Invalid attribute value in a message header.
    InvalidAttribute,
    /// Invalid service code in a message header.
    InvalidService,
    /// Invalid command number.
    InvalidCommand,
    /// Invalid instance (register number, I/O number out of range).
    InvalidInstance(String),
}

/// The character of decimal digit `d` (0-9).
pub open spec fn digit_char(d: nat) -> char {
    (48 + d) as char
}

/// The decimal digits of `n`, most significant first, as `{}` formats an
/// unsigned integer.
pub open spec fn decimal_text(n: nat) -> Seq<char>
    decreases n,
{
    if n < 10 {
        seq![digit_char(n)]
    } else {
        decimal_text(n / 10).push(digit_char(n % 10))
    }
}

/// `head`, the decimal digits of `n`, then `tail`.
pub open spec fn with_number(head: Seq<char>, n: nat, tail: Seq<char>) -> Seq<char> {
    head + decimal_text(n) + tail
}

/// `head`, the digits of `a`, `mid`, the digits of `b`, then `tail`.
pub open spec fn with_two_numbers(head: Seq<char>, a: nat, mid: Seq<char>, b: nat, tail: Seq<char>) -> Seq<char> {
    head + decimal_text(a) + mid + decimal_text(b) + tail
}

/// Appends the decimal digits of `n` to `s`.
fn push_decimal(s: &mut String, n: u64)
    ensures
        final(s)@ == old(s)@ + decimal_text(n as nat),
    decreases n,
{
    let ghost start = s@;
    if n >= 10 {
        push_decimal(s, n / 10);
    }
    let d: u8 = (n % 10) as u8;
    push_char(s, (48u8 + d) as char);
    proof {
        if n >= 10 {
            assert(decimal_text(n as nat) == decimal_text((n / 10) as nat).push(digit_char((n % 10) as nat)));
        }
        assert(s@ =~= start + decimal_text(n as nat));
    }
}

/// A message with one number in it: `head`, the decimal digits of `n`,
/// then `tail`.
pub(crate) fn text_with_number(head: &str, n: u64, tail: &str) -> (r: String)
    ensures
        r@ == with_number(head@, n as nat, tail@),
{
    let mut s = head.to_string();
    push_decimal(&mut s, n);
    s.append(tail);
    s
}

/// A message with two numbers in it: `head`, the digits of `a`, `mid`, the
/// digits of `b`, then `tail`.
pub(crate) fn text_with_two_numbers(head: &str, a: u64, mid: &str, b: u64, tail: &str) -> (r: String)
    ensures
        r@ == with_two_numbers(head@, a as nat, mid@, b as nat, tail@),
{
    let mut s = head.to_string();
    push_decimal(&mut s, a);
    s.append(mid);
    push_decimal(&mut s, b);
    s.append(tail);
    s
}

/// `host:port`.
pub(crate) fn host_port_text(host: &str, port: u16) -> (r: String)
    ensures
        r@ == host@ + ":"@ + decimal_text(port as nat),
{
    let mut s = host.to_string();
    s.append(":");
    push_decimal(&mut s, port as u64);
    s
}

} // verus!
