//! Parsers for the replies to file commands.

use crate::encoding::TextEncoding;
use crate::encoding_utils::{decode_string_with_fallback, spec_decode_string};
use crate::error::ProtocolError;
use crate::wire::{copy_range, find_nul, nul_index};
use vstd::prelude::*;

verus! {

/// Whether `c` has the Unicode `White_Space` property.
pub open spec fn is_unicode_whitespace(c: char) -> bool {
    let v = c as u32;
    ||| 0x09 <= v <= 0x0d
    ||| v == 0x20
    ||| v == 0x85
    ||| v == 0xa0
    ||| v == 0x1680
    ||| 0x2000 <= v <= 0x200a
    ||| v == 0x2028
    ||| v == 0x2029
    ||| v == 0x202f
    ||| v == 0x205f
    ||| v == 0x3000
}

/// `s` without its leading whitespace.
pub open spec fn trim_start_ws(s: Seq<char>) -> Seq<char>
    decreases s.len(),
{
    if s.len() > 0 && is_unicode_whitespace(s[0]) {
        trim_start_ws(s.drop_first())
    } else {
        s
    }
}

/// `s` without its trailing whitespace.
pub open spec fn trim_end_ws(s: Seq<char>) -> Seq<char>
    decreases s.len(),
{
    if s.len() > 0 && is_unicode_whitespace(s.last()) {
        trim_end_ws(s.drop_last())
    } else {
        s
    }
}

/// `s` without leading and trailing whitespace.
pub open spec fn trim_ws(s: Seq<char>) -> Seq<char> {
    trim_end_ws(trim_start_ws(s))
}

/// Scanning `s` from the left: the pieces closed by a CR LF so far, and the
/// piece still open.
pub open spec fn crlf_scan(s: Seq<char>) -> (Seq<Seq<char>>, Seq<char>)
    decreases s.len(),
{
    if s.len() == 0 {
        (Seq::empty(), Seq::empty())
    } else {
        let (done, cur) = crlf_scan(s.drop_last());
        let c = s.last();
        if c == '\n' && cur.len() > 0 && cur.last() == '\r' {
            (done.push(cur.drop_last()), Seq::empty())
        } else {
            (done, cur.push(c))
        }
    }
}

/// The pieces of `s` between CR LF separators, empty ones included.
pub open spec fn split_crlf(s: Seq<char>) -> Seq<Seq<char>> {
    crlf_scan(s).0.push(crlf_scan(s).1)
}

/// The non-empty pieces, each without leading and trailing whitespace.
pub open spec fn file_names(pieces: Seq<Seq<char>>) -> Seq<Seq<char>>
    decreases pieces.len(),
{
    if pieces.len() == 0 {
        Seq::empty()
    } else {
        let rest = file_names(pieces.drop_last());
        if pieces.last().len() == 0 {
            rest
        } else {
            rest.push(trim_ws(pieces.last()))
        }
    }
}

/// The file names of a listing: its CR LF separated lines that are not
/// empty, without surrounding whitespace.
pub open spec fn file_list_of(text: Seq<char>) -> Seq<Seq<char>> {
    file_names(split_crlf(text))
}

/// The content of a file reply: the bytes after the first zero byte (which
/// ends the file name), or all of them when there is none.
pub open spec fn file_content_of(data: Seq<u8>) -> Seq<u8> {
    if nul_index(data) < data.len() {
        data.subrange(nul_index(data) + 1, data.len() as int)
    } else {
        data
    }
}

/// Appends a char to a string.
#[verifier::external_body]
pub(crate) fn push_char(s: &mut String, c: char)
    ensures
        final(s)@ == old(s)@.push(c),
{
    s.push(c);
}

/// Whether `c` has the Unicode `White_Space` property.
fn is_whitespace(c: char) -> (r: bool)
    ensures
        r == is_unicode_whitespace(c),
{
    let v = c as u32;
    (0x09 <= v && v <= 0x0d) || v == 0x20 || v == 0x85 || v == 0xa0 || v == 0x1680 || (0x2000 <= v
        && v <= 0x200a) || v == 0x2028 || v == 0x2029 || v == 0x202f || v == 0x205f || v == 0x3000
}

/// The chars of `s` without leading and trailing whitespace, as a string.
fn trimmed(s: &Vec<char>) -> (r: String)
    ensures
        r@ == trim_ws(s@),
{
    let n = s.len();
    let mut lo: usize = 0;
    assert(s@.subrange(0, n as int) =~= s@);
    while lo < n && is_whitespace(s[lo])
        invariant
            lo <= n == s@.len(),
            trim_start_ws(s@) == trim_start_ws(s@.subrange(lo as int, n as int)),
        decreases n - lo,
    {
        assert(s@.subrange(lo as int, n as int).drop_first() =~= s@.subrange(lo + 1, n as int));
        lo = lo + 1;
    }
    assert(trim_start_ws(s@) == s@.subrange(lo as int, n as int));
    let mut hi: usize = n;
    while hi > lo && is_whitespace(s[hi - 1])
        invariant
            lo <= hi <= n == s@.len(),
            trim_ws(s@) == trim_end_ws(s@.subrange(lo as int, hi as int)),
        decreases hi - lo,
    {
        assert(s@.subrange(lo as int, hi as int).drop_last() =~= s@.subrange(lo as int, hi - 1));
        hi = hi - 1;
    }
    assert(trim_ws(s@) == s@.subrange(lo as int, hi as int));
    let mut r = String::new();
    let mut i: usize = lo;
    while i < hi
        invariant
            lo <= i <= hi <= n == s@.len(),
            r@ == s@.subrange(lo as int, i as int),
        decreases hi - i,
    {
        push_char(&mut r, s[i]);
        i = i + 1;
        assert(r@ =~= s@.subrange(lo as int, i as int));
    }
    r
}

/// Appends the trimmed piece to the names when the piece is not empty.
fn push_file_name(names: &mut Vec<String>, piece: &Vec<char>, Ghost(pieces): Ghost<Seq<Seq<char>>>)
    requires
        old(names)@.map_values(|s: String| s@) == file_names(pieces),
    ensures
        final(names)@.map_values(|s: String| s@) == file_names(pieces.push(piece@)),
{
    assert(pieces.push(piece@).drop_last() =~= pieces);
    if piece.len() > 0 {
        let t = trimmed(piece);
        names.push(t);
        assert(names@.map_values(|s: String| s@) =~= file_names(pieces).push(trim_ws(piece@)));
    } else {
        assert(names@.map_values(|s: String| s@) =~= file_names(pieces));
    }
}

/// Parses a file listing: the decoded text split at CR LF, empty lines
/// left out, each name without surrounding whitespace.
pub fn parse_file_list(data: &[u8], encoding: TextEncoding) -> (r: Result<Vec<String>, ProtocolError>)
    ensures
        r matches Ok(names) && names@.map_values(|s: String| s@) == file_list_of(
            spec_decode_string(data@, encoding),
        ),
{
    let content = decode_string_with_fallback(data, encoding);
    let mut names: Vec<String> = Vec::new();
    let mut cur: Vec<char> = Vec::new();
    let ghost mut seen: Seq<char> = Seq::empty();
    for c in it: content.chars()
        invariant
            it.seq() == content@,
            seen == it.seq().take(it.index() as int),
            crlf_scan(seen).1 == cur@,
            names@.map_values(|s: String| s@) == file_names(crlf_scan(seen).0),
    {
        let ghost before = seen;
        proof {
            seen = seen.push(c);
        }
        assert(seen.drop_last() =~= before);
        let n = cur.len();
        if c == '\n' && n > 0 && cur[n - 1] == '\r' {
            cur.pop();
            push_file_name(&mut names, &cur, Ghost(crlf_scan(before).0));
            cur = Vec::new();
            assert(cur@ =~= Seq::<char>::empty());
        } else {
            cur.push(c);
        }
    }
    assert(content@.take(content@.len() as int) =~= content@);
    push_file_name(&mut names, &cur, Ghost(crlf_scan(seen).0));
    Ok(names)
}

/// Parses a file reply of the form `name\0content`: the bytes after the
/// first zero byte, or all of them when there is none.
pub fn parse_file_content(data: &[u8]) -> (r: Result<Vec<u8>, ProtocolError>)
    ensures
        r matches Ok(content) && content@ == file_content_of(data@),
{
    let n = find_nul(data, 0, data.len());
    assert(data@.subrange(0, data@.len() as int) =~= data@);
    if n < data.len() {
        Ok(copy_range(data, n + 1, data.len()))
    } else {
        Ok(copy_range(data, 0, data.len()))
    }
}

} // verus!
