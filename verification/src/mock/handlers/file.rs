//! Handler for file control (command 0x00, on the file port).

use crate::commands::file::response::push_char;
use crate::encoding::TextEncoding;
use crate::encoding_utils::{decode_string_with_fallback, encode_string, spec_decode_string, spec_encode_string};
use crate::error::ProtocolError;
use crate::message::HsesRequestMessage;
use crate::mock::handlers::CommandHandler;
use crate::mock::state::{files_view, first_file_named, matching_names, no_file_named, MockState};
use crate::wire::{find_nul, nul_index, push_all};
use vstd::prelude::*;

verus! {

/// The names, each followed by a NUL character.
pub open spec fn listing_text(names: Seq<Seq<char>>) -> Seq<char>
    decreases names.len(),
{
    if names.len() == 0 {
        Seq::empty()
    } else {
        listing_text(names.drop_last()) + names.last().push('\0')
    }
}

/// The file name of a payload: the decoded bytes before its first NUL.
pub open spec fn payload_file_name(payload: Seq<u8>, encoding: TextEncoding) -> Seq<char> {
    spec_decode_string(payload.take(nul_index(payload)), encoding)
}

/// Whether the payload holds a NUL byte that ends a file name.
pub open spec fn has_file_name(payload: Seq<u8>) -> bool {
    nul_index(payload) < payload.len()
}

/// The listing pattern of a payload: `*` for an empty one, else the decoded
/// payload.
pub open spec fn listing_pattern(payload: Seq<u8>, encoding: TextEncoding) -> Seq<char> {
    if payload.len() == 0 {
        seq!['*']
    } else {
        spec_decode_string(payload, encoding)
    }
}

/// Whether `new` is `old` with the file stored: replaced where the name
/// exists, appended otherwise.
pub open spec fn file_stored(old: MockState, new: MockState, name: Seq<char>, content: Seq<u8>) -> bool {
    &&& new == (MockState { files: new.files, ..old })
    &&& forall|i: int|
        first_file_named(files_view(old.files@), name, i) ==> files_view(new.files@) == files_view(
            old.files@,
        ).update(i, (name, content))
    &&& no_file_named(files_view(old.files@), name) ==> files_view(new.files@) == files_view(old.files@).push(
        (name, content),
    )
}

/// Whether `new` is `old` without the first file named `name`.
pub open spec fn file_deleted(old: MockState, new: MockState, name: Seq<char>) -> bool {
    &&& new == (MockState { files: new.files, ..old })
    &&& forall|i: int|
        first_file_named(files_view(old.files@), name, i) ==> files_view(new.files@) == files_view(
            old.files@,
        ).remove(i)
    &&& no_file_named(files_view(old.files@), name) ==> new.files@ == old.files@
}

/// Whether `r` is the reply to a fetch of the file named `name`: the
/// encoded name, a NUL byte and the content when it exists, nothing
/// otherwise.
pub open spec fn file_fetched(files: Seq<(Seq<char>, Seq<u8>)>, name: Seq<char>, encoding: TextEncoding, r: Seq<u8>) -> bool {
    &&& no_file_named(files, name) ==> r.len() == 0
    &&& forall|i: int|
        first_file_named(files, name, i) ==> r == spec_encode_string(name, encoding).push(0u8) + files[i].1
}

/// The file name that ends at the first NUL of the payload, if there is one.
fn read_file_name(payload: &[u8], encoding: TextEncoding) -> (r: Option<(String, usize)>)
    ensures
        has_file_name(payload@) ==> (r matches Some((name, p)) && name@ == payload_file_name(payload@, encoding)
            && p == nul_index(payload@)),
        !has_file_name(payload@) ==> r is None,
{
    let p = find_nul(payload, 0, payload.len());
    assert(payload@.subrange(0, payload@.len() as int) =~= payload@);
    if p < payload.len() {
        let head = vstd::slice::slice_subrange(payload, 0, p);
        assert(head@ =~= payload@.take(p as int));
        Some((decode_string_with_fallback(head, encoding), p))
    } else {
        None
    }
}

/// Appends the chars of `t` to `s`.
fn push_text(s: &mut String, t: &str)
    ensures
        final(s)@ == old(s)@ + t@,
{
    let ghost start = s@;
    for c in it: t.chars()
        invariant
            it.seq() == t@,
            s@ == start + it.seq().take(it.index() as int),
    {
        push_char(s, c);
        assert(it.seq().take(it.index() + 1) =~= it.seq().take(it.index() as int).push(c));
    }
    assert(t@.take(t@.len() as int) =~= t@);
}

/// Serves the file port (command 0x00), by service: 0x01 answers the
/// listing `TEST.JOB`; 0x02 and 0x15 store the file of a `name\0content`
/// payload; 0x03 and 0x16 answer `name\0content` of a stored file (nothing
/// when there is none); 0x04 and 0x09 delete a file; 0x32 answers the names
/// that match the pattern of the payload, each followed by a NUL. A payload
/// without a NUL names no file and changes nothing. Any other service is
/// invalid.
pub struct FileControlHandler;

/// What `FileControlHandler` does with a request.
pub open spec fn file_control_handled(old: MockState, new: MockState, message: HsesRequestMessage, r: Result<Vec<u8>, ProtocolError>) -> bool {
    let service = message.sub_header.service;
    let payload = message.payload@;
    let encoding = old.text_encoding;
    let name = payload_file_name(payload, encoding);
    let files = files_view(old.files@);
    if service == 0x01 {
        new == old && (r matches Ok(v) && v@ == spec_encode_string("TEST.JOB\0"@, encoding))
    } else if service == 0x02 || service == 0x15 {
        &&& r matches Ok(v) && v@.len() == 0
        &&& has_file_name(payload) ==> file_stored(old, new, name, payload.skip(nul_index(payload) + 1))
        &&& !has_file_name(payload) ==> new == old
    } else if service == 0x03 || service == 0x16 {
        &&& new == old
        &&& has_file_name(payload) ==> (r matches Ok(v) && file_fetched(files, name, encoding, v@))
        &&& !has_file_name(payload) ==> (r matches Ok(v) && v@.len() == 0)
    } else if service == 0x04 || service == 0x09 {
        &&& r matches Ok(v) && v@.len() == 0
        &&& has_file_name(payload) ==> file_deleted(old, new, name)
        &&& !has_file_name(payload) ==> new == old
    } else if service == 0x32 {
        let names = matching_names(files, listing_pattern(payload, encoding));
        new == old && (r matches Ok(v) && v@ == spec_encode_string(listing_text(names), encoding))
    } else {
        new == old && (r matches Err(ProtocolError::InvalidService))
    }
}

impl CommandHandler for FileControlHandler {
    #[verifier::rlimit(40)]
    fn handle(&self, message: &HsesRequestMessage, state: &mut MockState) -> (r: Result<Vec<u8>, ProtocolError>)
        ensures
            file_control_handled(*old(state), *final(state), *message, r),
    {
        let service = message.sub_header.service;
        let encoding = state.text_encoding;
        let payload = message.payload.as_slice();
        if service == 0x01 {
            Ok(encode_string("TEST.JOB\0", encoding))
        } else if service == 0x02 || service == 0x15 {
            match read_file_name(payload, encoding) {
                Some((name, p)) => {
                    let n = payload.len();
                    assert(p < n);
                    let content = vstd::slice::slice_to_vec(vstd::slice::slice_subrange(payload, p + 1, payload.len()));
                    assert(content@ =~= message.payload@.skip(p + 1));
                    state.set_file(name, content);
                },
                None => {},
            }
            Ok(Vec::new())
        } else if service == 0x03 || service == 0x16 {
            match read_file_name(payload, encoding) {
                Some((name, _p)) => {
                    match state.get_file(name.as_str()) {
                        Some(content) => {
                            proof {
                                let files = files_view(state.files@);
                                let w = choose|w: int| first_file_named(files, name@, w) && content@ == files[w].1;
                                assert forall|i: int| first_file_named(files, name@, i) implies i == w by {
                                    if i < w {
                                        assert(files[i].0 == name@);
                                    } else if i > w {
                                        assert(files[w].0 == name@);
                                    }
                                }
                            }
                            let mut response = encode_string(name.as_str(), encoding);
                            response.push(0);
                            push_all(&mut response, content.as_slice());
                            Ok(response)
                        },
                        None => Ok(Vec::new()),
                    }
                },
                None => Ok(Vec::new()),
            }
        } else if service == 0x04 || service == 0x09 {
            match read_file_name(payload, encoding) {
                Some((name, _p)) => {
                    state.delete_file(name.as_str());
                },
                None => {},
            }
            Ok(Vec::new())
        } else if service == 0x32 {
            proof {
                reveal_strlit("*");
            }
            let pattern = if payload.len() == 0 {
                "*".to_string()
            } else {
                decode_string_with_fallback(payload, encoding)
            };
            assert(pattern@ =~= listing_pattern(message.payload@, encoding));
            let names = state.get_file_list(pattern.as_str());
            let mut listing = String::new();
            let mut i: usize = 0;
            while i < names.len()
                invariant
                    i <= names@.len(),
                    listing@ == listing_text(names@.take(i as int).map_values(|s: String| s@)),
                decreases names@.len() - i,
            {
                push_text(&mut listing, names[i].as_str());
                push_char(&mut listing, '\0');
                i = i + 1;
                assert(names@.take(i as int).map_values(|s: String| s@).drop_last() =~= names@.take(i - 1).map_values(
                    |s: String| s@,
                ));
            }
            assert(names@.take(i as int) =~= names@);
            assert(listing@ == listing_text(names@.map_values(|s: String| s@)));
            Ok(encode_string(listing.as_str(), encoding))
        } else {
            Err(ProtocolError::InvalidService)
        }
    }
}

} // verus!
