//! What the simulated controller promises across requests: a read answers
//! what an earlier write stored.

use crate::commands::alarm::{AlarmReset, AlarmResetType};
use crate::commands::command_trait::Command;
use crate::commands::cycle_mode::CycleModeSwitchingCommand;
use crate::commands::file::{DeleteFile, ReceiveFile, SendFile};
use crate::commands::io::{io_category_of, valid_io_count, WriteIo, WriteMultipleIo};
use crate::commands::job::{JobSelectCommand, JobStartCommand};
use crate::commands::register::{ReadMultipleRegisters, WriteMultipleRegisters, WriteRegister};
use crate::commands::servo::{HoldServoControl, HoldServoType, HoldServoValue};
use crate::commands::variable::{valid_count, ReadVariable, WriteMultipleVariables, WriteVariable};
use crate::encoding::TextEncoding;
use crate::encoding_utils::{
    ascii_chars, is_ascii_bytes, law_ascii_roundtrip, spec_decode_string, spec_encode_string, starts_with_bom,
};
use crate::error::ProtocolError;
use crate::message::HsesRequestMessage;
use crate::mock::handlers::file::{file_stored, has_file_name, payload_file_name};
use crate::mock::handlers::io::{io_bytes_from, plural_io_count_ok, plural_io_handled};
use crate::mock::handlers::position::position_readable;
use crate::mock::handlers::register::{payload_i16s, plural_register_handled, registers_from};
use crate::mock::handlers::registry::dispatched;
use crate::mock::handlers::job::trim_end_nul;
use crate::mock::handlers::system::hold_servo_state;
use crate::mock::handlers::variable::{
    byte_vars_from, double_vars_from, int_vars_from, payload_words, plural_byte_var_handled,
    plural_double_var_handled, plural_integer_var_handled, plural_real_var_handled, real_var_word,
    single_var_handled, trim_trailing_zeros, var_reply,
};
use crate::mock::handlers::zeros;
use crate::mock::server::reply_parts;
use crate::mock::state::{
    data_bit, files_view, first_file_named, io_bits, io_byte, io_state_of, io_written, no_file_named,
    register_of, registers_written, var_at, vars_written, MockState,
};
use crate::payload::position::{
    cartesian_of_bytes, law_cartesian_position_roundtrip, law_pulse_position_roundtrip, position_bytes,
    Position,
};
use crate::payload::status::{Status, StatusData1, StatusData2};
use crate::payload::variable::{flatten_map, i16s_bytes, lemma_flatten_map_fixed};
use crate::wire::{
    fit_to_width, i16_at, le_i16, lemma_nul_index, nul_index, le_i32, le_u32, lemma_i16_bytes_roundtrip_at,
    lemma_i32_bytes_roundtrip_at, lemma_i16_roundtrip, lemma_i32_roundtrip, lemma_u32_bytes_roundtrip,
    lemma_u32_roundtrip, u32_at, u32_of,
};
use vstd::arithmetic::div_mod::lemma_fundamental_div_mod;
use vstd::utf8::{
    encode_utf8, encode_utf8_decode_utf8, encode_utf8_valid_utf8, is_ascii_chars, is_ascii_chars_encode_utf8,
};
use vstd::prelude::*;

verus! {

/// What a single variable of `width` bytes answers after it was written
/// with `payload`.
pub open spec fn single_var_read_back(payload: Seq<u8>, width: nat, pad: bool) -> Seq<u8> {
    if pad {
        fit_to_width(payload, width)
    } else if payload.len() >= width {
        payload.take(width as int)
    } else {
        zeros(width)
    }
}

/// Whether `w` is a write (service 0x10) of command `command` and `rd` a
/// read (service 0x0e) of the same command and instance.
pub open spec fn write_then_read(command: u16, w: HsesRequestMessage, rd: HsesRequestMessage) -> bool {
    &&& w.sub_header.command == command
    &&& rd.sub_header.command == command
    &&& w.sub_header.service == 0x10
    &&& rd.sub_header.service == 0x0e
    &&& rd.sub_header.instance == w.sub_header.instance
}

proof fn lemma_single_var_write_then_read(
    s0: MockState,
    s1: MockState,
    s2: MockState,
    w: HsesRequestMessage,
    rd: HsesRequestMessage,
    width: nat,
    pad: bool,
    reserved: nat,
    r1: Result<Vec<u8>, ProtocolError>,
    r2: Result<Vec<u8>, ProtocolError>,
)
    requires
        single_var_handled(s0, s1, w, width, pad, reserved, r1),
        single_var_handled(s1, s2, rd, width, pad, reserved, r2),
        w.sub_header.service == 0x10,
        rd.sub_header.service == 0x0e,
        rd.sub_header.instance == w.sub_header.instance,
        w.sub_header.instance <= 99,
        w.payload@.len() > 0,
    ensures
        r1 matches Ok(v) && v@.len() == 0,
        s2 == s1,
        r2 matches Ok(v) && v@ == single_var_read_back(w.payload@, width, pad) + zeros(reserved),
{
    let n = w.sub_header.instance;
    assert(s1.variables@.dom().contains(n));
    assert(var_at(s1.variables@, n as int) == Some(w.payload@));
}

/// A B variable (0-99) written with a nonempty payload reads back as the
/// payload's first byte, and the read changes nothing.
pub proof fn law_byte_var_write_then_read(
    s0: MockState,
    s1: MockState,
    s2: MockState,
    w: HsesRequestMessage,
    rd: HsesRequestMessage,
    r1: Result<Vec<u8>, ProtocolError>,
    r2: Result<Vec<u8>, ProtocolError>,
)
    requires
        dispatched(s0, s1, w, r1),
        dispatched(s1, s2, rd, r2),
        write_then_read(0x7a, w, rd),
        w.sub_header.instance <= 99,
        w.payload@.len() > 0,
    ensures
        s2 == s1,
        r2 matches Ok(v) && v@ == w.payload@.take(1),
{
    lemma_single_var_write_then_read(s0, s1, s2, w, rd, 1, false, 0, r1, r2);
}

/// An I variable (0-99) written with a nonempty payload reads back as the
/// payload's first two bytes, or as two zeros when the payload was shorter,
/// followed by two reserved zero bytes.
pub proof fn law_integer_var_write_then_read(
    s0: MockState,
    s1: MockState,
    s2: MockState,
    w: HsesRequestMessage,
    rd: HsesRequestMessage,
    r1: Result<Vec<u8>, ProtocolError>,
    r2: Result<Vec<u8>, ProtocolError>,
)
    requires
        dispatched(s0, s1, w, r1),
        dispatched(s1, s2, rd, r2),
        write_then_read(0x7b, w, rd),
        w.sub_header.instance <= 99,
        w.payload@.len() > 0,
    ensures
        s2 == s1,
        r2 matches Ok(v) && v@ == single_var_read_back(w.payload@, 2, false) + seq![0u8, 0u8],
{
    lemma_single_var_write_then_read(s0, s1, s2, w, rd, 2, false, 2, r1, r2);
}

/// A D variable (0-99) written with a nonempty payload reads back as the
/// payload's first four bytes, or as four zeros when the payload was
/// shorter.
pub proof fn law_double_var_write_then_read(
    s0: MockState,
    s1: MockState,
    s2: MockState,
    w: HsesRequestMessage,
    rd: HsesRequestMessage,
    r1: Result<Vec<u8>, ProtocolError>,
    r2: Result<Vec<u8>, ProtocolError>,
)
    requires
        dispatched(s0, s1, w, r1),
        dispatched(s1, s2, rd, r2),
        write_then_read(0x7c, w, rd),
        w.sub_header.instance <= 99,
        w.payload@.len() > 0,
    ensures
        s2 == s1,
        r2 matches Ok(v) && v@ == single_var_read_back(w.payload@, 4, false),
{
    lemma_single_var_write_then_read(s0, s1, s2, w, rd, 4, false, 0, r1, r2);
}

/// An R variable (0-99) written with a nonempty payload reads back as the
/// payload cut or zero-padded to four bytes.
pub proof fn law_real_var_write_then_read(
    s0: MockState,
    s1: MockState,
    s2: MockState,
    w: HsesRequestMessage,
    rd: HsesRequestMessage,
    r1: Result<Vec<u8>, ProtocolError>,
    r2: Result<Vec<u8>, ProtocolError>,
)
    requires
        dispatched(s0, s1, w, r1),
        dispatched(s1, s2, rd, r2),
        write_then_read(0x7d, w, rd),
        w.sub_header.instance <= 99,
        w.payload@.len() > 0,
    ensures
        s2 == s1,
        r2 matches Ok(v) && v@ == fit_to_width(w.payload@, 4),
{
    lemma_single_var_write_then_read(s0, s1, s2, w, rd, 4, true, 0, r1, r2);
}

/// Trailing zeros do not change a text that is zero-padded to a width it
/// fits in.
proof fn lemma_fit_trimmed(s: Seq<u8>, width: nat)
    requires
        s.len() <= width,
    ensures
        fit_to_width(trim_trailing_zeros(s), width) == fit_to_width(s, width),
    decreases s.len(),
{
    if s.len() > 0 && s.last() == 0 {
        lemma_fit_trimmed(s.drop_last(), width);
        assert(fit_to_width(s.drop_last(), width) =~= fit_to_width(s, width));
    }
}

/// An S variable (0-99) written with a nonempty payload reads back as the
/// payload cut or zero-padded to 16 bytes, and the read changes nothing.
pub proof fn law_string_var_write_then_read(
    s0: MockState,
    s1: MockState,
    s2: MockState,
    w: HsesRequestMessage,
    rd: HsesRequestMessage,
    r1: Result<Vec<u8>, ProtocolError>,
    r2: Result<Vec<u8>, ProtocolError>,
)
    requires
        dispatched(s0, s1, w, r1),
        dispatched(s1, s2, rd, r2),
        write_then_read(0x7e, w, rd),
        w.sub_header.instance <= 99,
        w.payload@.len() > 0,
    ensures
        s2 == s1,
        r2 matches Ok(v) && v@ == fit_to_width(w.payload@, 16),
{
    let n = w.sub_header.instance;
    let p = w.payload@;
    let k: int = if p.len() < 16 {
        p.len() as int
    } else {
        16
    };
    assert(s1.variables@.dom().contains(n));
    assert(var_at(s1.variables@, n as int) == Some(trim_trailing_zeros(p.take(k))));
    lemma_fit_trimmed(p.take(k), 16);
    assert(fit_to_width(p.take(k), 16) =~= fit_to_width(p, 16));
    assert(var_reply(s1.variables@, n, 16, true) == fit_to_width(p, 16));
}

/// A register (0-999) written with a payload of at least two bytes reads
/// back as those two bytes followed by two zero bytes, and the read changes
/// nothing.
pub proof fn law_register_write_then_read(
    s0: MockState,
    s1: MockState,
    s2: MockState,
    w: HsesRequestMessage,
    rd: HsesRequestMessage,
    r1: Result<Vec<u8>, ProtocolError>,
    r2: Result<Vec<u8>, ProtocolError>,
)
    requires
        dispatched(s0, s1, w, r1),
        dispatched(s1, s2, rd, r2),
        write_then_read(0x79, w, rd),
        w.sub_header.instance <= 999,
        w.payload@.len() >= 2,
    ensures
        r1 matches Ok(v) && v@.len() == 0,
        s2 == s1,
        register_of(s1.registers@, w.sub_header.instance as int) == i16_at(w.payload@, 0),
        r2 matches Ok(v) && v@ == w.payload@.take(2) + seq![0u8, 0u8],
{
    let n = w.sub_header.instance;
    assert(s1.registers@.contains_key(n));
    lemma_i16_bytes_roundtrip_at(w.payload@, 0);
    assert(w.payload@.subrange(0, 2) =~= w.payload@.take(2));
}

/// An I/O signal of some category written with a nonempty payload reads
/// back as 1 when the payload's first byte is not zero and as 0 otherwise,
/// in the first of four bytes, and the read changes nothing.
pub proof fn law_io_write_then_read(
    s0: MockState,
    s1: MockState,
    s2: MockState,
    w: HsesRequestMessage,
    rd: HsesRequestMessage,
    r1: Result<Vec<u8>, ProtocolError>,
    r2: Result<Vec<u8>, ProtocolError>,
)
    requires
        dispatched(s0, s1, w, r1),
        dispatched(s1, s2, rd, r2),
        write_then_read(0x78, w, rd),
        io_category_of(w.sub_header.instance) is Some,
        w.payload@.len() > 0,
    ensures
        r1 matches Ok(v) && v@.len() == 0,
        s2 == s1,
        io_state_of(s1.io_states@, w.sub_header.instance as int) == (w.payload@[0] != 0),
        r2 matches Ok(v) && v@ == seq![if w.payload@[0] != 0 { 1u8 } else { 0u8 }, 0u8, 0u8, 0u8],
{
    assert(s1.io_states@.contains_key(w.sub_header.instance));
}

/// Fixed-width chunks that are the consecutive slices of `p` after its
/// first four bytes flatten back to those bytes.
proof fn lemma_chunks_reassemble<T>(items: Seq<T>, f: spec_fn(T) -> Seq<u8>, w: nat, p: Seq<u8>)
    requires
        w > 0,
        forall|x: T| #[trigger] f(x).len() == w,
        p.len() == 4 + items.len() * w,
        forall|k: int| 0 <= k < items.len() ==> #[trigger] f(items[k]) == p.subrange(4 + w * k, 4 + w * k + w),
    ensures
        flatten_map(items, f) == p.skip(4),
{
    lemma_flatten_map_fixed(items, f, w);
    let flat = flatten_map(items, f);
    let n = items.len();
    assert forall|j: int| 0 <= j < flat.len() implies #[trigger] flat[j] == p.skip(4)[j] by {
        let k = j / (w as int);
        let o = j % (w as int);
        lemma_fundamental_div_mod(j, w as int);
        assert(0 <= o < w);
        assert(0 <= k < n) by (nonlinear_arith)
            requires
                j == w * k + o,
                0 <= j < n * w,
                0 <= o < w,
                w > 0,
        ;
        assert(k * w == w * k) by (nonlinear_arith);
        assert(k * w + w <= n * w) by (nonlinear_arith)
            requires
                k < n,
                w > 0,
        ;
        assert(k * w + o == j);
        assert(flat.subrange(k * w, k * w + w) == f(items[k]));
        assert(flat.subrange(k * w, k * w + w)[o] == flat[j]);
        assert(p.subrange(4 + w * k, 4 + w * k + w)[o] == p[4 + w * k + o]);
    }
    assert(flat =~= p.skip(4));
}

/// The count word of a plural request is its first four bytes.
proof fn lemma_count_word(p: Seq<u8>)
    requires
        p.len() >= 4,
    ensures
        le_u32(u32_at(p, 0)) == p.take(4),
{
    lemma_u32_bytes_roundtrip(p[0], p[1], p[2], p[3]);
    assert(p.take(4) =~= seq![p[0], p[1], p[2], p[3]]);
}

/// Whether `w` is a plural write (service 0x34) of command `command` that
/// passes its checks and carries `width` bytes for each of its values, and
/// `rd` a plural read (service 0x33) of the same command, start and count.
pub open spec fn plural_write_then_read(command: u16, width: int, w: HsesRequestMessage, rd: HsesRequestMessage) -> bool {
    let count = u32_at(w.payload@, 0) as int;
    &&& w.sub_header.command == command
    &&& rd.sub_header.command == command
    &&& w.sub_header.service == 0x34
    &&& rd.sub_header.service == 0x33
    &&& w.sub_header.attribute == 0
    &&& rd.sub_header.attribute == 0
    &&& rd.sub_header.instance == w.sub_header.instance
    &&& w.payload@.len() == 4 + width * count
    &&& rd.payload@.len() >= 4
    &&& u32_at(rd.payload@, 0) == u32_at(w.payload@, 0)
    &&& w.sub_header.instance + count <= 0x1_0000
}

/// Through the plural B variable handler, plural B variables (0x302) written with an even count of 2-474 values
/// read back, over the same start and count, as exactly the bytes the write
/// sent: the count and the values.
pub proof fn law_plural_byte_var_write_then_read(
    s0: MockState,
    s1: MockState,
    s2: MockState,
    w: HsesRequestMessage,
    rd: HsesRequestMessage,
    r1: Result<Vec<u8>, ProtocolError>,
    r2: Result<Vec<u8>, ProtocolError>,
)
    requires
        plural_byte_var_handled(s0, s1, w, r1),
        plural_byte_var_handled(s1, s2, rd, r2),
        plural_write_then_read(0x302, 1, w, rd),
        1 <= u32_at(w.payload@, 0) <= 474,
        u32_at(w.payload@, 0) % 2 == 0,
    ensures
        r1 matches Ok(v) && v@ == w.payload@.take(4),
        s2 == s1,
        r2 matches Ok(v) && v@ == w.payload@,
{
    let p = w.payload@;
    let start = w.sub_header.instance as int;
    let count = u32_at(p, 0) as int;
    let vals = p.skip(4).map_values(|b: u8| seq![b]);
    lemma_count_word(p);
    let got = byte_vars_from(s1.variables@, start, count);
    assert forall|i: int| 0 <= i < count implies #[trigger] got[i] == p.skip(4)[i] by {
        let k = (start + i) as u16;
        assert(s1.variables@.contains_key(k));
        assert(s1.variables@[k]@ == vals[i]);
    }
    assert(got =~= p.skip(4));
    assert(p =~= p.take(4) + p.skip(4));
}

/// Through the plural I variable handler, plural I variables (0x303) written with 1-237 values read back, over the
/// same start and count, as exactly the bytes the write sent.
pub proof fn law_plural_integer_var_write_then_read(
    s0: MockState,
    s1: MockState,
    s2: MockState,
    w: HsesRequestMessage,
    rd: HsesRequestMessage,
    r1: Result<Vec<u8>, ProtocolError>,
    r2: Result<Vec<u8>, ProtocolError>,
)
    requires
        plural_integer_var_handled(s0, s1, w, r1),
        plural_integer_var_handled(s1, s2, rd, r2),
        plural_write_then_read(0x303, 2, w, rd),
        1 <= u32_at(w.payload@, 0) <= 237,
    ensures
        r1 matches Ok(v) && v@ == w.payload@.take(4),
        s2 == s1,
        r2 matches Ok(v) && v@ == w.payload@,
{
    let p = w.payload@;
    let start = w.sub_header.instance as int;
    let count = u32_at(p, 0) as int;
    lemma_count_word(p);
    let got = int_vars_from(s1.variables@, start, count);
    let f = |v: i16| le_i16(v);
    assert forall|k: int| 0 <= k < count implies #[trigger] f(got[k]) == p.subrange(4 + 2 * k, 4 + 2 * k + 2) by {
        let key = (start + k) as u16;
        assert(s1.variables@.contains_key(key));
        assert(s1.variables@[key]@ == payload_words(p, count, 2)[k]);
        lemma_i16_bytes_roundtrip_at(p, 4 + 2 * k);
    }
    lemma_chunks_reassemble(got, f, 2, p);
    assert(p =~= p.take(4) + p.skip(4));
}

/// Through the plural D variable handler, plural D variables (0x304) written with 1-118 values read back, over the
/// same start and count, as exactly the bytes the write sent.
pub proof fn law_plural_double_var_write_then_read(
    s0: MockState,
    s1: MockState,
    s2: MockState,
    w: HsesRequestMessage,
    rd: HsesRequestMessage,
    r1: Result<Vec<u8>, ProtocolError>,
    r2: Result<Vec<u8>, ProtocolError>,
)
    requires
        plural_double_var_handled(s0, s1, w, r1),
        plural_double_var_handled(s1, s2, rd, r2),
        plural_write_then_read(0x304, 4, w, rd),
        1 <= u32_at(w.payload@, 0) <= 118,
    ensures
        r1 matches Ok(v) && v@ == w.payload@.take(4),
        s2 == s1,
        r2 matches Ok(v) && v@ == w.payload@,
{
    let p = w.payload@;
    let start = w.sub_header.instance as int;
    let count = u32_at(p, 0) as int;
    lemma_count_word(p);
    let got = double_vars_from(s1.variables@, start, count);
    let f = |v: i32| le_i32(v);
    assert forall|k: int| 0 <= k < count implies #[trigger] f(got[k]) == p.subrange(4 + 4 * k, 4 + 4 * k + 4) by {
        let key = (start + k) as u16;
        assert(s1.variables@.contains_key(key));
        assert(s1.variables@[key]@ == payload_words(p, count, 4)[k]);
        lemma_i32_bytes_roundtrip_at(p, 4 + 4 * k);
    }
    lemma_chunks_reassemble(got, f, 4, p);
    assert(p =~= p.take(4) + p.skip(4));
}

/// Through the plural R variable handler, plural R variables (0x305) written with 1-118 values read back, over the
/// same start and count, as exactly the bytes the write sent.
pub proof fn law_plural_real_var_write_then_read(
    s0: MockState,
    s1: MockState,
    s2: MockState,
    w: HsesRequestMessage,
    rd: HsesRequestMessage,
    r1: Result<Vec<u8>, ProtocolError>,
    r2: Result<Vec<u8>, ProtocolError>,
)
    requires
        plural_real_var_handled(s0, s1, w, r1),
        plural_real_var_handled(s1, s2, rd, r2),
        plural_write_then_read(0x305, 4, w, rd),
        1 <= u32_at(w.payload@, 0) <= 118,
    ensures
        r1 matches Ok(v) && v@ == w.payload@.take(4),
        s2 == s1,
        r2 matches Ok(v) && v@ == w.payload@,
{
    let p = w.payload@;
    let start = w.sub_header.instance as int;
    let count = u32_at(p, 0) as int;
    lemma_count_word(p);
    let ns = Seq::new(count as nat, |i: int| start + i);
    let f = |n: int| real_var_word(s1.variables@, n);
    assert forall|k: int| 0 <= k < count implies #[trigger] f(ns[k]) == p.subrange(4 + 4 * k, 4 + 4 * k + 4) by {
        let key = (start + k) as u16;
        assert(s1.variables@.contains_key(key));
        assert(s1.variables@[key]@ == payload_words(p, count, 4)[k]);
        assert(s1.variables@[key]@.take(4) =~= s1.variables@[key]@);
    }
    assert forall|x: int| #[trigger] f(x).len() == 4 by {}
    lemma_chunks_reassemble(ns, f, 4, p);
    assert(p =~= p.take(4) + p.skip(4));
}

/// Through the plural register handler, plural registers (0x301) written with 1-237 values inside 0-559 read
/// back, over the same start and count, as exactly the bytes the write
/// sent.
pub proof fn law_plural_register_write_then_read(
    s0: MockState,
    s1: MockState,
    s2: MockState,
    w: HsesRequestMessage,
    rd: HsesRequestMessage,
    r1: Result<Vec<u8>, ProtocolError>,
    r2: Result<Vec<u8>, ProtocolError>,
)
    requires
        plural_register_handled(s0, s1, w, r1),
        plural_register_handled(s1, s2, rd, r2),
        plural_write_then_read(0x301, 2, w, rd),
        1 <= u32_at(w.payload@, 0) <= 237,
        w.sub_header.instance + u32_at(w.payload@, 0) - 1 <= 559,
    ensures
        r1 matches Ok(v) && v@ == w.payload@.take(4),
        s2 == s1,
        r2 matches Ok(v) && v@ == w.payload@,
{
    let p = w.payload@;
    let start = w.sub_header.instance as int;
    let count = u32_at(p, 0) as int;
    lemma_count_word(p);
    let got = registers_from(s1.registers@, start, count);
    let f = |v: i16| le_i16(v);
    assert forall|k: int| 0 <= k < count implies #[trigger] f(got[k]) == p.subrange(4 + 2 * k, 4 + 2 * k + 2) by {
        let key = (start + k) as u16;
        assert(s1.registers@.contains_key(key));
        lemma_i16_bytes_roundtrip_at(p, 4 + 2 * k);
    }
    lemma_chunks_reassemble(got, f, 2, p);
    assert(p =~= p.take(4) + p.skip(4));
}

/// The I/O byte at `base` is `x` when its eight signals are the bits of `x`.
proof fn lemma_io_byte_of_bits(m: Map<u16, bool>, base: int, x: u8)
    requires
        forall|b: int| 0 <= b < 8 ==> #[trigger] io_state_of(m, base + b) == ((x >> (b as u8)) & 1u8 == 1u8),
    ensures
        io_byte(m, base) == x,
{
    let c0 = io_state_of(m, base + 0);
    let c1 = io_state_of(m, base + 1);
    let c2 = io_state_of(m, base + 2);
    let c3 = io_state_of(m, base + 3);
    let c4 = io_state_of(m, base + 4);
    let c5 = io_state_of(m, base + 5);
    let c6 = io_state_of(m, base + 6);
    let c7 = io_state_of(m, base + 7);
    let v0 = io_bits(m, base, 0);
    let v1 = io_bits(m, base, 1);
    let v2 = io_bits(m, base, 2);
    let v3 = io_bits(m, base, 3);
    let v4 = io_bits(m, base, 4);
    let v5 = io_bits(m, base, 5);
    let v6 = io_bits(m, base, 6);
    let v7 = io_bits(m, base, 7);
    let v8 = io_bits(m, base, 8);
    assert(v0 == 0);
    assert(v1 == (if c0 { v0 | ((1u8 << 0u8) as u8) } else { v0 }));
    assert(v2 == (if c1 { v1 | ((1u8 << 1u8) as u8) } else { v1 }));
    assert(v3 == (if c2 { v2 | ((1u8 << 2u8) as u8) } else { v2 }));
    assert(v4 == (if c3 { v3 | ((1u8 << 3u8) as u8) } else { v3 }));
    assert(v5 == (if c4 { v4 | ((1u8 << 4u8) as u8) } else { v4 }));
    assert(v6 == (if c5 { v5 | ((1u8 << 5u8) as u8) } else { v5 }));
    assert(v7 == (if c6 { v6 | ((1u8 << 6u8) as u8) } else { v6 }));
    assert(v8 == (if c7 { v7 | ((1u8 << 7u8) as u8) } else { v7 }));
    assert(c0 == ((x >> 0u8) & 1u8 == 1u8));
    assert(c1 == ((x >> 1u8) & 1u8 == 1u8));
    assert(c2 == ((x >> 2u8) & 1u8 == 1u8));
    assert(c3 == ((x >> 3u8) & 1u8 == 1u8));
    assert(c4 == ((x >> 4u8) & 1u8 == 1u8));
    assert(c5 == ((x >> 5u8) & 1u8 == 1u8));
    assert(c6 == ((x >> 6u8) & 1u8 == 1u8));
    assert(c7 == ((x >> 7u8) & 1u8 == 1u8));
    assert(v8 == x) by (bit_vector)
        requires
            v0 == 0,
            v1 == (if c0 { v0 | ((1u8 << 0u8) as u8) } else { v0 }),
            v2 == (if c1 { v1 | ((1u8 << 1u8) as u8) } else { v1 }),
            v3 == (if c2 { v2 | ((1u8 << 2u8) as u8) } else { v2 }),
            v4 == (if c3 { v3 | ((1u8 << 3u8) as u8) } else { v3 }),
            v5 == (if c4 { v4 | ((1u8 << 4u8) as u8) } else { v4 }),
            v6 == (if c5 { v5 | ((1u8 << 5u8) as u8) } else { v5 }),
            v7 == (if c6 { v6 | ((1u8 << 6u8) as u8) } else { v6 }),
            v8 == (if c7 { v7 | ((1u8 << 7u8) as u8) } else { v7 }),
            c0 == ((x >> 0u8) & 1u8 == 1u8),
            c1 == ((x >> 1u8) & 1u8 == 1u8),
            c2 == ((x >> 2u8) & 1u8 == 1u8),
            c3 == ((x >> 3u8) & 1u8 == 1u8),
            c4 == ((x >> 4u8) & 1u8 == 1u8),
            c5 == ((x >> 5u8) & 1u8 == 1u8),
            c6 == ((x >> 6u8) & 1u8 == 1u8),
            c7 == ((x >> 7u8) & 1u8 == 1u8),
    ;
}

/// Through the plural I/O handler, plural I/O data (0x300) written to network inputs 2701-2956 with an even
/// count of 2-474 bytes whose signals stay among them reads back, over the
/// same start and count, as exactly the bytes the write sent: the count and
/// the I/O bytes.
pub proof fn law_plural_io_write_then_read(
    s0: MockState,
    s1: MockState,
    s2: MockState,
    w: HsesRequestMessage,
    rd: HsesRequestMessage,
    r1: Result<Vec<u8>, ProtocolError>,
    r2: Result<Vec<u8>, ProtocolError>,
)
    requires
        plural_io_handled(s0, s1, w, r1),
        plural_io_handled(s1, s2, rd, r2),
        plural_write_then_read(0x300, 1, w, rd),
        plural_io_count_ok(u32_at(w.payload@, 0)),
        2701 <= w.sub_header.instance,
        w.sub_header.instance + 8 * u32_at(w.payload@, 0) - 1 <= 2956,
    ensures
        r1 matches Ok(v) && v@ == w.payload@.take(4),
        s2 == s1,
        r2 matches Ok(v) && v@ == w.payload@,
{
    let p = w.payload@;
    let data = p.skip(4);
    let start = w.sub_header.instance as int;
    let count = u32_at(p, 0) as int;
    lemma_count_word(p);
    assert(io_category_of(w.sub_header.instance) is Some);
    assert(io_category_of((start + count - 1) as u16) is Some);
    let got = io_bytes_from(s1.io_states@, start, count);
    assert forall|i: int| 0 <= i < count implies #[trigger] got[i] == data[i] by {
        assert forall|b: int| 0 <= b < 8 implies #[trigger] io_state_of(s1.io_states@, start + 8 * i + b) == ((
        data[i] >> (b as u8)) & 1u8 == 1u8) by {
            let k = (start + 8 * i + b) as u16;
            assert(8 * i + b < 8 * count) by (nonlinear_arith)
                requires
                    i < count,
                    b < 8,
            ;
            assert(s1.io_states@.contains_key(k));
            assert((8 * i + b) / 8 == i && (8 * i + b) % 8 == b) by (nonlinear_arith)
                requires
                    0 <= b < 8,
            ;
            assert(data_bit(data, 8 * i + b) == ((data[i] >> (b as u8)) & 1u8 == 1u8));
        }
        lemma_io_byte_of_bits(s1.io_states@, start + 8 * i, data[i]);
    }
    assert(got =~= data);
    assert(p =~= p.take(4) + p.skip(4));
}

/// Either no file has the name, or one of them is the first with it.
proof fn lemma_first_or_none(files: Seq<(Seq<char>, Seq<u8>)>, name: Seq<char>)
    ensures
        no_file_named(files, name) || exists|i: int| first_file_named(files, name, i),
    decreases files.len(),
{
    if files.len() > 0 {
        let front = files.drop_last();
        lemma_first_or_none(front, name);
        assert forall|j: int| 0 <= j < front.len() implies #[trigger] files[j] == front[j] by {}
        if no_file_named(front, name) {
            if files.last().0 == name {
                assert(first_file_named(files, name, files.len() - 1));
            }
        } else {
            let i = choose|i: int| first_file_named(front, name, i);
            assert(first_file_named(files, name, i));
        }
    }
}

/// Whether `w` stores a file (service 0x02 or 0x15 of command 0x00) and `rd`
/// fetches one (service 0x03 or 0x16) by the same name in `encoding`; both
/// payloads hold the NUL that ends the name.
pub open spec fn store_then_fetch(w: HsesRequestMessage, rd: HsesRequestMessage, encoding: TextEncoding) -> bool {
    &&& w.sub_header.command == 0x00
    &&& rd.sub_header.command == 0x00
    &&& (w.sub_header.service == 0x02 || w.sub_header.service == 0x15)
    &&& (rd.sub_header.service == 0x03 || rd.sub_header.service == 0x16)
    &&& has_file_name(w.payload@)
    &&& has_file_name(rd.payload@)
    &&& payload_file_name(rd.payload@, encoding) == payload_file_name(w.payload@, encoding)
}

/// A file stored with a `name\0content` payload is fetched back by its name
/// as the encoded name, a NUL byte and the same content; the fetch changes
/// nothing.
pub proof fn law_file_store_then_fetch(
    s0: MockState,
    s1: MockState,
    s2: MockState,
    w: HsesRequestMessage,
    rd: HsesRequestMessage,
    r1: Result<Vec<u8>, ProtocolError>,
    r2: Result<Vec<u8>, ProtocolError>,
)
    requires
        dispatched(s0, s1, w, r1),
        dispatched(s1, s2, rd, r2),
        store_then_fetch(w, rd, s0.text_encoding),
    ensures
        r1 matches Ok(v) && v@.len() == 0,
        s2 == s1,
        r2 matches Ok(v) && v@ == spec_encode_string(payload_file_name(w.payload@, s0.text_encoding), s0.text_encoding).push(
            0u8,
        ) + w.payload@.skip(nul_index(w.payload@) + 1),
{
    let enc = s0.text_encoding;
    let name = payload_file_name(w.payload@, enc);
    let content = w.payload@.skip(nul_index(w.payload@) + 1);
    let old_files = files_view(s0.files@);
    let new_files = files_view(s1.files@);
    lemma_first_or_none(old_files, name);
    if no_file_named(old_files, name) {
        assert(new_files == old_files.push((name, content)));
        assert(first_file_named(new_files, name, old_files.len() as int));
    } else {
        let i = choose|i: int| first_file_named(old_files, name, i);
        assert(new_files == old_files.update(i, (name, content)));
        assert(first_file_named(new_files, name, i));
    }
}

/// An ASCII name without NUL characters encodes to the same NUL-free bytes
/// in either encoding, and those bytes decode back to it in either.
proof fn lemma_ascii_name_bytes(name: Seq<char>, e1: TextEncoding, e2: TextEncoding)
    requires
        is_ascii_chars(name),
        forall|i: int| 0 <= i < name.len() ==> name[i] != '\0',
    ensures
        spec_encode_string(name, e1) == encode_utf8(name),
        encode_utf8(name).len() == name.len(),
        forall|i: int| 0 <= i < name.len() ==> encode_utf8(name)[i] != 0,
        spec_decode_string(encode_utf8(name), e2) == name,
{
    broadcast use is_ascii_chars_encode_utf8;

    law_ascii_roundtrip(name, e2);
    assert forall|i: int| 0 <= i < name.len() implies encode_utf8(name)[i] != 0 by {
        let c = name[i];
        assert(encode_utf8(name)[i] == c as u8);
        assert('\0' <= c <= '\u{7f}');
        assert(c != '\0');
    }
}

/// A file sent as the request its transfer serializes to, under an ASCII
/// name without NUL characters, is stored on the controller under that name
/// with that content (replacing the first file of that name, appended
/// otherwise), and the reply is empty.
pub proof fn law_send_file_reaches_controller(
    s0: MockState,
    s1: MockState,
    cmd: SendFile,
    message: HsesRequestMessage,
    r: Result<Vec<u8>, ProtocolError>,
)
    requires
        is_ascii_chars(cmd.filename@),
        forall|i: int| 0 <= i < cmd.filename@.len() ==> cmd.filename@[i] != '\0',
        carries(message, cmd),
        dispatched(s0, s1, message, r),
    ensures
        r matches Ok(v) && v@.len() == 0,
        file_stored(s0, s1, cmd.filename@, cmd.content@),
{
    let name = cmd.filename@;
    let p = message.payload@;
    let n = name.len() as int;
    lemma_ascii_name_bytes(name, cmd.encoding, s0.text_encoding);
    let bytes = encode_utf8(name);
    assert(p == bytes.push(0u8) + cmd.content@);
    lemma_nul_index(p, n);
    assert(p.take(n) =~= bytes);
    assert(p.skip(n + 1) =~= cmd.content@);
}

/// A file fetch sent as the request it serializes to names the file without
/// the NUL byte that the controller reads a name up to: for an ASCII name
/// without NUL characters the controller answers nothing and changes
/// nothing.
pub proof fn law_receive_file_command_answers_nothing(
    s0: MockState,
    s1: MockState,
    cmd: ReceiveFile,
    message: HsesRequestMessage,
    r: Result<Vec<u8>, ProtocolError>,
)
    requires
        is_ascii_chars(cmd.filename@),
        forall|i: int| 0 <= i < cmd.filename@.len() ==> cmd.filename@[i] != '\0',
        carries(message, cmd),
        dispatched(s0, s1, message, r),
    ensures
        r matches Ok(v) && v@.len() == 0,
        s1 == s0,
{
    let name = cmd.filename@;
    lemma_ascii_name_bytes(name, cmd.encoding, s0.text_encoding);
    lemma_nul_index(message.payload@, name.len() as int);
}

/// A file deletion sent as the request it serializes to names the file
/// without the NUL byte that the controller reads a name up to: for an
/// ASCII name without NUL characters the controller keeps its files and
/// answers nothing.
pub proof fn law_delete_file_command_changes_nothing(
    s0: MockState,
    s1: MockState,
    cmd: DeleteFile,
    message: HsesRequestMessage,
    r: Result<Vec<u8>, ProtocolError>,
)
    requires
        is_ascii_chars(cmd.filename@),
        forall|i: int| 0 <= i < cmd.filename@.len() ==> cmd.filename@[i] != '\0',
        carries(message, cmd),
        dispatched(s0, s1, message, r),
    ensures
        r matches Ok(v) && v@.len() == 0,
        s1.files@ == s0.files@,
        s1 == (MockState { files: s1.files, ..s0 }),
{
    let name = cmd.filename@;
    lemma_ascii_name_bytes(name, cmd.encoding, s0.text_encoding);
    lemma_nul_index(message.payload@, name.len() as int);
}

/// Whether `w` deletes a file (service 0x04 or 0x09 of command 0x00) and
/// `rd` fetches one (service 0x03 or 0x16) by the same name in `encoding`;
/// both payloads hold the NUL that ends the name.
pub open spec fn delete_then_fetch(w: HsesRequestMessage, rd: HsesRequestMessage, encoding: TextEncoding) -> bool {
    &&& w.sub_header.command == 0x00
    &&& rd.sub_header.command == 0x00
    &&& (w.sub_header.service == 0x04 || w.sub_header.service == 0x09)
    &&& (rd.sub_header.service == 0x03 || rd.sub_header.service == 0x16)
    &&& has_file_name(w.payload@)
    &&& has_file_name(rd.payload@)
    &&& payload_file_name(rd.payload@, encoding) == payload_file_name(w.payload@, encoding)
}

/// In a well-formed state, a file fetched after its deletion answers
/// nothing.
pub proof fn law_file_delete_then_fetch(
    s0: MockState,
    s1: MockState,
    s2: MockState,
    w: HsesRequestMessage,
    rd: HsesRequestMessage,
    r1: Result<Vec<u8>, ProtocolError>,
    r2: Result<Vec<u8>, ProtocolError>,
)
    requires
        s0.valid(),
        dispatched(s0, s1, w, r1),
        dispatched(s1, s2, rd, r2),
        delete_then_fetch(w, rd, s0.text_encoding),
    ensures
        r1 matches Ok(v) && v@.len() == 0,
        s2 == s1,
        r2 matches Ok(v) && v@.len() == 0,
{
    let enc = s0.text_encoding;
    let name = payload_file_name(w.payload@, enc);
    let old_files = files_view(s0.files@);
    let new_files = files_view(s1.files@);
    lemma_first_or_none(old_files, name);
    if !no_file_named(old_files, name) {
        let i = choose|i: int| first_file_named(old_files, name, i);
        assert(new_files == old_files.remove(i));
        assert forall|j: int| 0 <= j < new_files.len() implies new_files[j].0 != name by {
            if j < i {
                assert(new_files[j] == old_files[j]);
            } else {
                assert(new_files[j] == old_files[j + 1]);
                assert(old_files[i].0 != old_files[j + 1].0);
            }
        }
    }
    assert(no_file_named(new_files, name));
}

/// Whether `message` carries the command `c`: its command number, the
/// instance, attribute and service of its sub-header, and its payload.
pub open spec fn carries<C: Command>(message: HsesRequestMessage, c: C) -> bool {
    &&& message.sub_header.command == C::command_id_spec()
    &&& message.sub_header.instance == c.instance_spec()
    &&& message.sub_header.attribute == c.attribute_spec()
    &&& message.sub_header.service == c.service_spec()
    &&& c.payload_spec() == Some(message.payload@)
}

/// The values of a payload of a count and `width`-byte values are the
/// slices of its bytes after the count.
proof fn lemma_payload_chunks<T>(values: Seq<T>, f: spec_fn(T) -> Seq<u8>, width: nat, p: Seq<u8>)
    requires
        forall|x: T| #[trigger] f(x).len() == width,
        values.len() <= u32::MAX,
        p == le_u32(values.len() as u32) + flatten_map(values, f),
    ensures
        p.len() == 4 + values.len() * width,
        u32_at(p, 0) == values.len(),
        forall|k: int| 0 <= k < values.len() ==> #[trigger] p.subrange(4 + width * k, 4 + width * k + width) == f(
            values[k],
        ),
{
    lemma_flatten_map_fixed(values, f, width);
    lemma_u32_roundtrip(values.len() as u32);
    let flat = flatten_map(values, f);
    assert forall|k: int| 0 <= k < values.len() implies #[trigger] p.subrange(4 + width * k, 4 + width * k + width)
        == f(values[k]) by {
        assert(k * width == width * k) by (nonlinear_arith);
        assert(k * width + width <= values.len() * width) by (nonlinear_arith)
            requires
                k < values.len(),
        ;
        assert(0 <= k * width) by (nonlinear_arith)
            requires
                0 <= k,
        ;
        assert(p.subrange(4 + width * k, 4 + width * k + width) =~= flat.subrange(k * width, k * width + width));
    }
}

/// A plural register write of 1-237 values within registers 0-559, sent
/// as the request it serializes to the plural register handler, leaves
/// the state with those
/// values in those registers and every other register unchanged, and is
/// answered with the count.
pub proof fn law_write_multiple_registers_reaches_handler(
    s0: MockState,
    s1: MockState,
    cmd: WriteMultipleRegisters,
    message: HsesRequestMessage,
    r: Result<Vec<u8>, ProtocolError>,
)
    requires
        1 <= cmd.values@.len() <= 237,
        cmd.start_register_number + cmd.values@.len() - 1 <= 559,
        carries(message, cmd),
        plural_register_handled(s0, s1, message, r),
    ensures
        r matches Ok(v) && v@ == le_u32(cmd.values@.len() as u32),
        s1 == (MockState { registers: s1.registers, ..s0 }),
        registers_written(
            s0.registers@,
            s1.registers@,
            cmd.start_register_number as int,
            cmd.values@.len() as int,
            cmd.values@,
        ),
{
    let p = message.payload@;
    let vals = cmd.values@;
    let f = |v: i16| le_i16(v);
    lemma_payload_chunks(vals, f, 2, p);
    assert forall|k: int| 0 <= k < vals.len() implies #[trigger] payload_i16s(p, vals.len() as int)[k] == vals[k] by {
        assert(p.subrange(4 + 2 * k, 4 + 2 * k + 2) == le_i16(vals[k]));
        assert(p[4 + 2 * k] == le_i16(vals[k])[0] && p[4 + 2 * k + 1] == le_i16(vals[k])[1]);
        lemma_i16_roundtrip(vals[k]);
    }
    assert(payload_i16s(p, vals.len() as int) =~= vals);
}

/// A plural B variable write of an even count of 2-474 values, sent as the
/// request it serializes to the plural B variable handler, stores each
/// value as the one-byte variable of
/// its number and leaves every other variable unchanged.
pub proof fn law_write_multiple_byte_variables_reaches_handler(
    s0: MockState,
    s1: MockState,
    cmd: WriteMultipleVariables<u8>,
    message: HsesRequestMessage,
    r: Result<Vec<u8>, ProtocolError>,
)
    requires
        valid_count::<u8>(cmd.values@.len() as u32),
        cmd.values@.len() <= u32::MAX,
        cmd.start_variable_number + cmd.values@.len() <= 0x1_0000,
        carries(message, cmd),
        plural_byte_var_handled(s0, s1, message, r),
    ensures
        r matches Ok(v) && v@ == le_u32(cmd.values@.len() as u32),
        s1 == (MockState { variables: s1.variables, ..s0 }),
        vars_written(
            s0.variables@,
            s1.variables@,
            cmd.start_variable_number as int,
            cmd.values@.map_values(|b: u8| seq![b]),
        ),
{
    let p = message.payload@;
    let vals = cmd.values@;
    lemma_u32_roundtrip(vals.len() as u32);
    assert(p.skip(4) =~= vals);
}

/// A plural I variable write of 1-237 values, sent as the request it
/// serializes to the plural I variable handler, stores each value as the two little-endian bytes of the
/// variable of its number and leaves every other variable unchanged.
pub proof fn law_write_multiple_integer_variables_reaches_handler(
    s0: MockState,
    s1: MockState,
    cmd: WriteMultipleVariables<i16>,
    message: HsesRequestMessage,
    r: Result<Vec<u8>, ProtocolError>,
)
    requires
        valid_count::<i16>(cmd.values@.len() as u32),
        cmd.values@.len() <= u32::MAX,
        cmd.start_variable_number + cmd.values@.len() <= 0x1_0000,
        carries(message, cmd),
        plural_integer_var_handled(s0, s1, message, r),
    ensures
        r matches Ok(v) && v@ == le_u32(cmd.values@.len() as u32),
        s1 == (MockState { variables: s1.variables, ..s0 }),
        vars_written(
            s0.variables@,
            s1.variables@,
            cmd.start_variable_number as int,
            cmd.values@.map_values(|v: i16| le_i16(v)),
        ),
{
    let p = message.payload@;
    let vals = cmd.values@;
    let f = |v: i16| le_i16(v);
    lemma_payload_chunks(vals, f, 2, p);
    assert(payload_words(p, vals.len() as int, 2) =~= vals.map_values(|v: i16| le_i16(v)));
}

/// A plural D variable write of 1-118 values, sent as the request it
/// serializes to the plural D variable handler, stores each value as the four little-endian bytes of the
/// variable of its number and leaves every other variable unchanged.
pub proof fn law_write_multiple_double_variables_reaches_handler(
    s0: MockState,
    s1: MockState,
    cmd: WriteMultipleVariables<i32>,
    message: HsesRequestMessage,
    r: Result<Vec<u8>, ProtocolError>,
)
    requires
        valid_count::<i32>(cmd.values@.len() as u32),
        cmd.values@.len() <= u32::MAX,
        cmd.start_variable_number + cmd.values@.len() <= 0x1_0000,
        carries(message, cmd),
        plural_double_var_handled(s0, s1, message, r),
    ensures
        r matches Ok(v) && v@ == le_u32(cmd.values@.len() as u32),
        s1 == (MockState { variables: s1.variables, ..s0 }),
        vars_written(
            s0.variables@,
            s1.variables@,
            cmd.start_variable_number as int,
            cmd.values@.map_values(|v: i32| le_i32(v)),
        ),
{
    let p = message.payload@;
    let vals = cmd.values@;
    let f = |v: i32| le_i32(v);
    lemma_payload_chunks(vals, f, 4, p);
    assert(payload_words(p, vals.len() as int, 4) =~= vals.map_values(|v: i32| le_i32(v)));
}

/// A plural I/O write to network inputs 2701-2956 of an even count of 2-474
/// bytes whose signals stay among them, sent as the request it serializes
/// to the plural I/O handler, sets those signals from the bits of the data, leaves every other
/// signal unchanged, and is answered with the count.
pub proof fn law_write_multiple_io_reaches_handler(
    s0: MockState,
    s1: MockState,
    cmd: WriteMultipleIo,
    message: HsesRequestMessage,
    r: Result<Vec<u8>, ProtocolError>,
)
    requires
        valid_io_count(cmd.io_data@.len() as int),
        2701 <= cmd.start_io_number,
        cmd.start_io_number + 8 * cmd.io_data@.len() - 1 <= 2956,
        carries(message, cmd),
        plural_io_handled(s0, s1, message, r),
    ensures
        r matches Ok(v) && v@ == le_u32(cmd.io_data@.len() as u32),
        s1 == (MockState { io_states: s1.io_states, ..s0 }),
        io_written(
            s0.io_states@,
            s1.io_states@,
            cmd.start_io_number as int,
            cmd.start_io_number + 8 * cmd.io_data@.len(),
            cmd.io_data@,
        ),
{
    let p = message.payload@;
    lemma_u32_roundtrip(cmd.io_data@.len() as u32);
    assert(io_category_of(cmd.start_io_number) is Some);
    assert(p.skip(4) =~= cmd.io_data@);
}

/// Whether the controller has a handler for command `c`: the file command
/// 0x00 and the robot commands 0x70-0x8b.
pub open spec fn known_command(c: u16) -> bool {
    c == 0x00 || (0x70 <= c <= 0x8b)
}

/// A request for a command the controller does not know (any but 0x00 and
/// 0x70-0x8b; the plural commands 0x300-0x305 among them) changes nothing
/// and is answered with status 1, added status 1 and no payload.
pub proof fn law_unknown_command_refused(
    s0: MockState,
    s1: MockState,
    message: HsesRequestMessage,
    r: Result<Vec<u8>, ProtocolError>,
)
    requires
        dispatched(s0, s1, message, r),
        !known_command(message.sub_header.command),
    ensures
        s1 == s0,
        reply_parts(r) == (Seq::<u8>::empty(), 1u8, 1u16),
{
}

/// A hold, servo or HLOCK request, sent as the request it serializes to,
/// switches that one thing on for `On` and off for `Off`: a hold also stops
/// the job and sets the command hold flag, the servo power also sets the
/// servo flag of the status. Nothing else changes and the reply is empty.
pub proof fn law_hold_servo_control_reaches_controller(
    s0: MockState,
    s1: MockState,
    cmd: HoldServoControl,
    message: HsesRequestMessage,
    r: Result<Vec<u8>, ProtocolError>,
)
    requires
        carries(message, cmd),
        dispatched(s0, s1, message, r),
    ensures
        r matches Ok(v) && v@.len() == 0,
        s1 == hold_servo_state(s0, cmd.control_type.code(), cmd.value.code()),
        cmd.control_type == HoldServoType::Hold ==> s1.hold_state == (cmd.value == HoldServoValue::On)
            && s1.status.data2.command_hold == (cmd.value == HoldServoValue::On) && s1.status.data1.running == (
        cmd.value == HoldServoValue::Off),
        cmd.control_type == HoldServoType::ServoOn ==> s1.servo_on == (cmd.value == HoldServoValue::On)
            && s1.status.data2.servo_on == (cmd.value == HoldServoValue::On),
        cmd.control_type == HoldServoType::HLock ==> s1.hlock_state == (cmd.value == HoldServoValue::On),
{
    lemma_i32_roundtrip(cmd.value.code());
}

/// A cycle mode switch, sent as the request it serializes to, sets the
/// controller's cycle mode to its mode, changes nothing else, and is
/// answered with no payload.
pub proof fn law_cycle_mode_switch_reaches_controller(
    s0: MockState,
    s1: MockState,
    cmd: CycleModeSwitchingCommand,
    message: HsesRequestMessage,
    r: Result<Vec<u8>, ProtocolError>,
)
    requires
        carries(message, cmd),
        dispatched(s0, s1, message, r),
    ensures
        r matches Ok(v) && v@.len() == 0,
        s1 == (MockState { cycle_mode: cmd.mode, ..s0 }),
{
    let b = cmd.mode.code();
    assert(u32_of(b, 0, 0, 0) == b as u32) by (bit_vector);
}

/// An alarm reset, sent as the request it serializes to, clears the alarms
/// and the alarm flag of the status; an alarm data or alarm information
/// read after it answers 60 zero bytes for any alarm and attribute 0-8.
pub proof fn law_alarm_reset_then_read(
    s0: MockState,
    s1: MockState,
    s2: MockState,
    cmd: AlarmReset,
    message: HsesRequestMessage,
    rd: HsesRequestMessage,
    r1: Result<Vec<u8>, ProtocolError>,
    r2: Result<Vec<u8>, ProtocolError>,
)
    requires
        cmd.reset_type == AlarmResetType::Reset,
        carries(message, cmd),
        dispatched(s0, s1, message, r1),
        rd.sub_header.command == 0x70 || rd.sub_header.command == 0x71,
        rd.sub_header.attribute <= 8,
        dispatched(s1, s2, rd, r2),
    ensures
        r1 matches Ok(v) && v@.len() == 0,
        s1.alarms@.len() == 0,
        !s1.status.data2.alarm,
        s2 == s1,
        r2 matches Ok(v) && v@ == zeros(60),
{
}

/// An error cancel, sent as the request it serializes to, clears the error
/// flag of the status and changes nothing else.
pub proof fn law_error_cancel_reaches_controller(
    s0: MockState,
    s1: MockState,
    cmd: AlarmReset,
    message: HsesRequestMessage,
    r: Result<Vec<u8>, ProtocolError>,
)
    requires
        cmd.reset_type == AlarmResetType::Cancel,
        carries(message, cmd),
        dispatched(s0, s1, message, r),
    ensures
        r matches Ok(v) && v@.len() == 0,
        s1 == (MockState {
            status: Status { data2: StatusData2 { error: false, ..s0.status.data2 }, ..s0.status },
            ..s0
        }),
{
}

/// A plural register read of 1-237 registers within 0-999, sent as the
/// request it serializes to the plural register handler, changes nothing
/// and is answered with the count and the value of each register, two little-endian bytes each.
pub proof fn law_read_multiple_registers_reaches_handler(
    s0: MockState,
    s1: MockState,
    cmd: ReadMultipleRegisters,
    message: HsesRequestMessage,
    r: Result<Vec<u8>, ProtocolError>,
)
    requires
        1 <= cmd.count <= 237,
        cmd.start_register_number + cmd.count - 1 <= 999,
        carries(message, cmd),
        plural_register_handled(s0, s1, message, r),
    ensures
        s1 == s0,
        r matches Ok(v) && v@ == le_u32(cmd.count) + i16s_bytes(
            registers_from(s0.registers@, cmd.start_register_number as int, cmd.count as int),
        ),
{
    lemma_u32_roundtrip(cmd.count);
}

/// Whether `payload` writes position `p`: its bytes (a pulse position of
/// at least 8 joints), or its 44 bytes followed by at least 8 more (a
/// Cartesian position).
pub open spec fn writes_position(payload: Seq<u8>, p: Position) -> bool {
    match p {
        Position::Pulse(pulse) => pulse.joints@.len() >= 8 && payload == position_bytes(p),
        Position::Cartesian(_) => payload.len() >= 52 && payload.take(44) == position_bytes(p),
    }
}

/// A position variable (0x7f) written with the bytes of a position reads
/// back, as the position variable or as the current position (0x75), as
/// the bytes of that position.
pub proof fn law_position_var_write_then_read(
    s0: MockState,
    s1: MockState,
    s2: MockState,
    w: HsesRequestMessage,
    rd: HsesRequestMessage,
    p: Position,
    r1: Result<Vec<u8>, ProtocolError>,
    r2: Result<Vec<u8>, ProtocolError>,
)
    requires
        dispatched(s0, s1, w, r1),
        dispatched(s1, s2, rd, r2),
        w.sub_header.command == 0x7f,
        w.sub_header.service == 0x10,
        writes_position(w.payload@, p),
        rd.sub_header.command == 0x75 || (rd.sub_header.command == 0x7f && (rd.sub_header.service == 0x0e
            || rd.sub_header.service == 0x01)),
    ensures
        r1 matches Ok(v) && v@.len() == 0,
        s2 == s1,
        r2 matches Ok(v) && v@ == position_bytes(p),
{
    let data = w.payload@;
    match p {
        Position::Pulse(pulse) => {
            let f = |v: i32| le_i32(v);
            lemma_flatten_map_fixed(pulse.joints@, f, 4);
            lemma_u32_roundtrip(0);
            assert(data.subrange(0, 4) =~= le_u32(0));
            assert(position_readable(data));
            match s1.position {
                Position::Pulse(qq) => {
                    law_pulse_position_roundtrip(pulse.joints@, qq.joints@);
                    assert(qq.joints@ == pulse.joints@);
                },
                Position::Cartesian(_) => {},
            }
        },
        Position::Cartesian(c) => {
            law_cartesian_position_roundtrip(c);
            let b = position_bytes(p);
            assert(data.take(44) == b);
            assert forall|i: int| 0 <= i < 44 implies data[i] == b[i] by {
                assert(data.take(44)[i] == data[i]);
            }
            assert(cartesian_of_bytes(data) == cartesian_of_bytes(b));
            assert(position_readable(data));
        },
    }
}

/// A job start, sent as the request it serializes to, sets the running flag
/// of the status, changes nothing else, and is answered with no payload.
pub proof fn law_job_start_reaches_controller(
    s0: MockState,
    s1: MockState,
    cmd: JobStartCommand,
    message: HsesRequestMessage,
    r: Result<Vec<u8>, ProtocolError>,
)
    requires
        carries(message, cmd),
        dispatched(s0, s1, message, r),
    ensures
        r matches Ok(v) && v@.len() == 0,
        s1 == (MockState {
            status: Status { data1: StatusData1 { running: true, ..s0.status.data1 }, ..s0.status },
            ..s0
        }),
{
}

/// `n` NUL characters.
pub open spec fn nuls(n: nat) -> Seq<char> {
    Seq::new(n, |i: int| '\0')
}

/// Trailing NULs come off a text that does not itself end with one.
proof fn lemma_trim_padded(name: Seq<char>, n: nat)
    requires
        name.len() == 0 || name.last() != '\0',
    ensures
        trim_end_nul(name + nuls(n)) == name,
    decreases n,
{
    if n == 0 {
        assert(name + nuls(0) =~= name);
    } else {
        assert((name + nuls(n)).drop_last() =~= name + nuls((n - 1) as nat));
        lemma_trim_padded(name, (n - 1) as nat);
    }
}

/// A job selection request (0x87, attribute 1, service 0x02) whose instance
/// and payload are those of a selection of an ASCII job name of at most 32
/// characters that does not end with NUL, at line 0-9999, in the
/// controller's text encoding, makes the controller record that job name,
/// line and select type, and changes nothing else.
pub proof fn law_job_select_payload_recorded(
    s0: MockState,
    s1: MockState,
    cmd: JobSelectCommand,
    message: HsesRequestMessage,
    r: Result<Vec<u8>, ProtocolError>,
)
    requires
        is_ascii_chars(cmd.job_name@),
        cmd.job_name@.len() <= 32,
        cmd.job_name@.len() == 0 || cmd.job_name@.last() != '\0',
        cmd.line_number <= 9999,
        cmd.text_encoding == s0.text_encoding,
        message.sub_header.command == 0x87,
        message.sub_header.instance == cmd.instance_spec(),
        message.sub_header.attribute == 1,
        message.sub_header.service == 0x02,
        cmd.payload_spec() == Some(message.payload@),
        dispatched(s0, s1, message, r),
    ensures
        r matches Ok(v) && v@.len() == 0,
        s1 == (MockState { selected_job: s1.selected_job, ..s0 }),
        s1.selected_job matches Some(j) && j.job_name@ == cmd.job_name@ && j.line_number == cmd.line_number
            && j.select_type == cmd.select_type.code(),
{
    broadcast use is_ascii_chars_encode_utf8, encode_utf8_decode_utf8, encode_utf8_valid_utf8;

    let name = cmd.job_name@;
    let n = name.len();
    let padded = name + nuls((32 - n) as nat);
    let p = message.payload@;
    let bytes = encode_utf8(name);
    assert(is_ascii_chars(padded));
    let t = p.take(32);
    assert(t =~= encode_utf8(padded)) by {
        assert forall|i: int| 0 <= i < 32 implies t[i] == encode_utf8(padded)[i] by {
            if i < n {
                assert(padded[i] == name[i]);
                assert(t[i] == bytes[i]);
            } else {
                assert(padded[i] == '\0');
            }
        }
    }
    lemma_u32_roundtrip(cmd.line_number);
    assert(p.subrange(32, 36) =~= le_u32(cmd.line_number));
    assert(u32_at(p, 32) == cmd.line_number);
    assert forall|i: int| 0 <= i < t.len() implies t[i] < 0x80 by {
        assert(t[i] == padded[i] as u8);
    }
    if s0.text_encoding is Utf8 {
        assert(!starts_with_bom(t));
        assert(spec_decode_string(t, s0.text_encoding) == padded);
    } else {
        assert(is_ascii_bytes(t));
        assert(ascii_chars(t) =~= padded) by {
            assert forall|i: int| 0 <= i < t.len() implies ascii_chars(t)[i] == padded[i] by {
                let c = padded[i];
                assert(t[i] == c as u8);
                assert('\0' <= c <= '\u{7f}');
                assert(((c as u8) as char) == c);
            }
        }
    }
    lemma_trim_padded(name, (32 - n) as nat);
}

/// A job selection sent as the request it serializes to carries attribute
/// 0, which the controller refuses as an invalid attribute; nothing
/// changes.
pub proof fn law_job_select_command_refused(
    s0: MockState,
    s1: MockState,
    cmd: JobSelectCommand,
    message: HsesRequestMessage,
    r: Result<Vec<u8>, ProtocolError>,
)
    requires
        carries(message, cmd),
        dispatched(s0, s1, message, r),
    ensures
        r matches Err(ProtocolError::InvalidAttribute),
        s1 == s0,
{
}

/// A register write (registers 0-999), sent as the request it serializes
/// to, sets that register to its value, changes nothing else, and is
/// answered with no payload.
pub proof fn law_write_register_reaches_controller(
    s0: MockState,
    s1: MockState,
    cmd: WriteRegister,
    message: HsesRequestMessage,
    r: Result<Vec<u8>, ProtocolError>,
)
    requires
        cmd.register_number <= 999,
        carries(message, cmd),
        dispatched(s0, s1, message, r),
    ensures
        r matches Ok(v) && v@.len() == 0,
        s1 == (MockState { registers: s1.registers, ..s0 }),
        s1.registers@ == s0.registers@.insert(cmd.register_number, cmd.value),
{
    lemma_i16_roundtrip(cmd.value);
}

/// An I/O write to a signal of some category, sent as the request it
/// serializes to, switches that signal on for a nonzero value and off for
/// zero, changes nothing else, and is answered with no payload.
pub proof fn law_write_io_reaches_controller(
    s0: MockState,
    s1: MockState,
    cmd: WriteIo,
    message: HsesRequestMessage,
    r: Result<Vec<u8>, ProtocolError>,
)
    requires
        io_category_of(cmd.io_number) is Some,
        carries(message, cmd),
        dispatched(s0, s1, message, r),
    ensures
        r matches Ok(v) && v@.len() == 0,
        s1 == (MockState { io_states: s1.io_states, ..s0 }),
        s1.io_states@ == s0.io_states@.insert(cmd.io_number, cmd.value != 0),
{
}

/// A B variable (0-99) written with `WriteVariable<u8>` and read with
/// `ReadVariable<u8>`, each sent as the request it serializes to, reads
/// back as the 1 bytes of the value written.
pub proof fn law_byte_variable_write_then_read(
    s0: MockState,
    s1: MockState,
    s2: MockState,
    w: WriteVariable<u8>,
    rd: ReadVariable<u8>,
    wm: HsesRequestMessage,
    rm: HsesRequestMessage,
    r1: Result<Vec<u8>, ProtocolError>,
    r2: Result<Vec<u8>, ProtocolError>,
)
    requires
        w.index <= 99,
        rd.index == w.index,
        carries(wm, w),
        carries(rm, rd),
        dispatched(s0, s1, wm, r1),
        dispatched(s1, s2, rm, r2),
    ensures
        s2 == s1,
        r2 matches Ok(v) && v@ == seq![w.value],
{
    lemma_single_var_write_then_read(s0, s1, s2, wm, rm, 1, false, 0, r1, r2);
    assert(seq![w.value].take(1) =~= seq![w.value]);
}

/// A I variable (0-99) written with `WriteVariable<i16>` and read with
/// `ReadVariable<i16>`, each sent as the request it serializes to, reads
/// back as the 2 bytes of the value written and two reserved zero bytes.
pub proof fn law_integer_variable_write_then_read(
    s0: MockState,
    s1: MockState,
    s2: MockState,
    w: WriteVariable<i16>,
    rd: ReadVariable<i16>,
    wm: HsesRequestMessage,
    rm: HsesRequestMessage,
    r1: Result<Vec<u8>, ProtocolError>,
    r2: Result<Vec<u8>, ProtocolError>,
)
    requires
        w.index <= 99,
        rd.index == w.index,
        carries(wm, w),
        carries(rm, rd),
        dispatched(s0, s1, wm, r1),
        dispatched(s1, s2, rm, r2),
    ensures
        s2 == s1,
        r2 matches Ok(v) && v@ == le_i16(w.value) + seq![0u8, 0u8],
{
    lemma_single_var_write_then_read(s0, s1, s2, wm, rm, 2, false, 2, r1, r2);
    assert(le_i16(w.value).take(2) =~= le_i16(w.value));
    assert(zeros(2) =~= seq![0u8, 0u8]);
}

/// A D variable (0-99) written with `WriteVariable<i32>` and read with
/// `ReadVariable<i32>`, each sent as the request it serializes to, reads
/// back as the 4 bytes of the value written.
pub proof fn law_double_variable_write_then_read(
    s0: MockState,
    s1: MockState,
    s2: MockState,
    w: WriteVariable<i32>,
    rd: ReadVariable<i32>,
    wm: HsesRequestMessage,
    rm: HsesRequestMessage,
    r1: Result<Vec<u8>, ProtocolError>,
    r2: Result<Vec<u8>, ProtocolError>,
)
    requires
        w.index <= 99,
        rd.index == w.index,
        carries(wm, w),
        carries(rm, rd),
        dispatched(s0, s1, wm, r1),
        dispatched(s1, s2, rm, r2),
    ensures
        s2 == s1,
        r2 matches Ok(v) && v@ == le_i32(w.value),
{
    lemma_single_var_write_then_read(s0, s1, s2, wm, rm, 4, false, 0, r1, r2);
    assert(le_i32(w.value).take(4) =~= le_i32(w.value));
}

} // verus!
