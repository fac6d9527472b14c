//! What the simulated controller answers to the client's read requests, in
//! terms of what the client's decoders make of the answer.

use crate::commands::alarm::{AlarmAttribute, ReadAlarmData};
use crate::commands::command_trait::Command;
use crate::commands::position::ReadCurrentPosition;
use crate::commands::io::{io_category_of, ReadIo};
use crate::commands::register::ReadRegister;
use crate::commands::status::{ReadStatus, ReadStatusData1, ReadStatusData2};
use crate::error::ProtocolError;
use crate::message::HsesRequestMessage;
use crate::mock::handlers::registry::dispatched;
use crate::mock::laws::carries;
use crate::mock::state::{io_state_of, matching_names, name_matches, register_of, text_contains, trim_stars, MockState};
use crate::commands::job::ReadExecutingJobInfo;
use crate::payload::alarm::{alarm_attribute_bytes, alarm_bytes, ascii_fits, field_text, law_alarm_attribute_is_its_field};
use crate::payload::job::{
    job_info_bytes, job_info_of_bytes, law_job_attribute_is_its_field, law_job_info_roundtrip, speed_fits,
    ExecutingJobInfo,
};
use crate::payload::payload_trait::HsesPayload;
use crate::payload::position::{
    law_cartesian_position_roundtrip, law_pulse_position_roundtrip, pulse_joints_of_bytes, Position,
};
use crate::payload::status::{
    data1_of_word, data1_word, data2_of_word, data2_word, lemma_data1_word_roundtrip,
    lemma_data2_word_roundtrip,
};
use crate::wire::{i16_at, lemma_i16_roundtrip, lemma_u16_roundtrip, u16_at, u32_at};
use vstd::prelude::*;

verus! {

/// `n` zero bytes.
pub open spec fn zero_run(n: nat) -> Seq<u8> {
    Seq::new(n, |i: int| 0u8)
}

/// A status read (command 0x72) changes nothing and is answered with 8
/// bytes: for attribute 1 the status data 1 word, for attribute 2 the status
/// data 2 word, each followed by zeros, and for any other attribute both
/// words followed by zeros. The client's decoders read each word back as the
/// state's flags.
pub proof fn law_status_read_answers_the_status(
    s0: MockState,
    s1: MockState,
    message: HsesRequestMessage,
    r: Result<Vec<u8>, ProtocolError>,
)
    requires
        message.sub_header.command == 0x72,
        dispatched(s0, s1, message, r),
    ensures
        s1 == s0,
        r matches Ok(v) && v@.len() == 8,
        message.sub_header.attribute == 1 ==> (r matches Ok(v) && data1_of_word(u16_at(v@, 0))
            == s0.status.data1 && v@.skip(2) == zero_run(6)),
        message.sub_header.attribute == 2 ==> (r matches Ok(v) && data2_of_word(u16_at(v@, 0))
            == s0.status.data2 && v@.skip(2) == zero_run(6)),
        message.sub_header.attribute != 1 && message.sub_header.attribute != 2 ==> (r matches Ok(v)
            && data1_of_word(u16_at(v@, 0)) == s0.status.data1 && data2_of_word(u16_at(v@, 2))
            == s0.status.data2 && v@.skip(4) == zero_run(4)),
{
    let w1 = data1_word(s0.status.data1);
    let w2 = data2_word(s0.status.data2);
    lemma_u16_roundtrip(w1);
    lemma_u16_roundtrip(w2);
    lemma_data1_word_roundtrip(s0.status.data1);
    lemma_data2_word_roundtrip(s0.status.data2);
    let v = r->Ok_0@;
    let a = message.sub_header.attribute;
    if a == 1 {
        assert(v.subrange(0, 2) =~= crate::wire::le_u16(w1));
        assert(v.skip(2) =~= zero_run(6));
    } else if a == 2 {
        assert(v.subrange(0, 2) =~= crate::wire::le_u16(w2));
        assert(v.skip(2) =~= zero_run(6));
    } else {
        assert(v.subrange(0, 2) =~= crate::wire::le_u16(w1));
        assert(v.subrange(2, 4) =~= crate::wire::le_u16(w2));
        assert(u16_at(v, 2) == u16_at(crate::wire::le_u16(w2), 0));
        assert(v.skip(4) =~= zero_run(4));
    }
}

/// A status data 1 read, sent as the request it serializes to, is answered
/// with a word that the client reads back as the state's status data 1.
pub proof fn law_read_status_data1_reaches_controller(
    s0: MockState,
    s1: MockState,
    cmd: ReadStatusData1,
    message: HsesRequestMessage,
    r: Result<Vec<u8>, ProtocolError>,
)
    requires
        carries(message, cmd),
        dispatched(s0, s1, message, r),
    ensures
        s1 == s0,
        r matches Ok(v) && v@.len() == 8 && data1_of_word(u16_at(v@, 0)) == s0.status.data1,
{
    law_status_read_answers_the_status(s0, s1, message, r);
}

/// A status data 2 read, sent as the request it serializes to, is answered
/// with a word that the client reads back as the state's status data 2.
pub proof fn law_read_status_data2_reaches_controller(
    s0: MockState,
    s1: MockState,
    cmd: ReadStatusData2,
    message: HsesRequestMessage,
    r: Result<Vec<u8>, ProtocolError>,
)
    requires
        carries(message, cmd),
        dispatched(s0, s1, message, r),
    ensures
        s1 == s0,
        r matches Ok(v) && v@.len() == 8 && data2_of_word(u16_at(v@, 0)) == s0.status.data2,
{
    law_status_read_answers_the_status(s0, s1, message, r);
}

/// A whole status read, sent as the request it serializes to, is answered
/// with two words that the client reads back as the state's status.
pub proof fn law_read_status_reaches_controller(
    s0: MockState,
    s1: MockState,
    cmd: ReadStatus,
    message: HsesRequestMessage,
    r: Result<Vec<u8>, ProtocolError>,
)
    requires
        carries(message, cmd),
        dispatched(s0, s1, message, r),
    ensures
        s1 == s0,
        r matches Ok(v) && v@.len() == 8 && data1_of_word(u16_at(v@, 0)) == s0.status.data1
            && data2_of_word(u16_at(v@, 2)) == s0.status.data2,
{
    law_status_read_answers_the_status(s0, s1, message, r);
}

/// An I/O read of a signal of some category, sent as the request it
/// serializes to, changes nothing and is answered with 1 for a signal that
/// is on and 0 for one that is off, in the first of four bytes.
pub proof fn law_read_io_reaches_controller(
    s0: MockState,
    s1: MockState,
    cmd: ReadIo,
    message: HsesRequestMessage,
    r: Result<Vec<u8>, ProtocolError>,
)
    requires
        io_category_of(cmd.io_number) is Some,
        carries(message, cmd),
        dispatched(s0, s1, message, r),
    ensures
        s1 == s0,
        r matches Ok(v) && v@ == seq![
            if io_state_of(s0.io_states@, cmd.io_number as int) { 1u8 } else { 0u8 },
            0u8,
            0u8,
            0u8,
        ],
{
}

/// A register read (registers 0-999), sent as the request it serializes to,
/// changes nothing and is answered with four bytes whose first two read back
/// as the register's value and whose last two are zero.
pub proof fn law_read_register_reaches_controller(
    s0: MockState,
    s1: MockState,
    cmd: ReadRegister,
    message: HsesRequestMessage,
    r: Result<Vec<u8>, ProtocolError>,
)
    requires
        cmd.register_number <= 999,
        carries(message, cmd),
        dispatched(s0, s1, message, r),
    ensures
        s1 == s0,
        r matches Ok(v) && v@.len() == 4 && i16_at(v@, 0) == register_of(
            s0.registers@,
            cmd.register_number as int,
        ) && v@[2] == 0 && v@[3] == 0,
{
    lemma_i16_roundtrip(register_of(s0.registers@, cmd.register_number as int));
}

/// A read of one attribute (1-4) of the executing job (command 0x73, a task
/// 1-6, service 0x0e) changes nothing and is answered with that attribute's
/// field of the job's 44-byte record: the line and step numbers read back as
/// themselves, the speed override in 0.01 % reads back as the percent, and a
/// name that fits its field reads back as the name.
pub proof fn law_job_info_read_answers_the_field(
    s0: MockState,
    s1: MockState,
    j: ExecutingJobInfo,
    message: HsesRequestMessage,
    r: Result<Vec<u8>, ProtocolError>,
)
    requires
        message.sub_header.command == 0x73,
        1 <= message.sub_header.instance <= 6,
        1 <= message.sub_header.attribute <= 4,
        message.sub_header.service == 0x0e,
        s0.executing_job == Some(j),
        speed_fits(j),
        dispatched(s0, s1, message, r),
    ensures
        s1 == s0,
        message.sub_header.attribute == 1 ==> (r matches Ok(v) && v@ == job_info_bytes(j, s0.text_encoding).subrange(
            0,
            32,
        ) && (ascii_fits(j.job_name@, 32) ==> field_text(v@, s0.text_encoding) == j.job_name@)),
        message.sub_header.attribute == 2 ==> (r matches Ok(v) && v@ == job_info_bytes(j, s0.text_encoding).subrange(
            32,
            36,
        ) && u32_at(v@, 0) == j.line_number),
        message.sub_header.attribute == 3 ==> (r matches Ok(v) && v@ == job_info_bytes(j, s0.text_encoding).subrange(
            36,
            40,
        ) && u32_at(v@, 0) == j.step_number),
        message.sub_header.attribute == 4 ==> (r matches Ok(v) && v@ == job_info_bytes(j, s0.text_encoding).subrange(
            40,
            44,
        ) && u32_at(v@, 0) / 100 == j.speed_override_value),
{
    law_job_attribute_is_its_field(j, s0.text_encoding);
}

/// `n` stars.
pub open spec fn stars(n: nat) -> Seq<char> {
    Seq::new(n, |i: int| '*')
}

/// Whether `part` stands in `name` at index `i`.
pub open spec fn stands_at(name: Seq<char>, part: Seq<char>, i: int) -> bool {
    0 <= i && i + part.len() <= name.len() && name.subrange(i, i + part.len()) == part
}

/// A pattern is some stars, its core and some stars, and a core that is not
/// empty neither starts nor ends with a star.
pub proof fn law_pattern_core_is_without_surrounding_stars(p: Seq<char>)
    ensures
        exists|a: nat, b: nat| p == stars(a) + trim_stars(p) + stars(b),
        trim_stars(p).len() > 0 ==> trim_stars(p)[0] != '*' && trim_stars(p).last() != '*',
    decreases p.len(),
{
    let t = trim_stars(p);
    if p.len() > 0 && p[0] == '*' {
        let q = p.drop_first();
        law_pattern_core_is_without_surrounding_stars(q);
        let (a, b) = choose|a: nat, b: nat| q == stars(a) + trim_stars(q) + stars(b);
        assert(t == trim_stars(q));
        assert(stars(a + 1) =~= seq!['*'] + stars(a));
        assert(p =~= seq!['*'] + q);
        assert(p =~= stars(a + 1) + t + stars(b));
    } else if p.len() > 0 && p.last() == '*' {
        let q = p.drop_last();
        law_pattern_core_is_without_surrounding_stars(q);
        let (a, b) = choose|a: nat, b: nat| q == stars(a) + trim_stars(q) + stars(b);
        assert(t == trim_stars(q));
        assert(stars(b + 1) =~= stars(b) + seq!['*']);
        assert(p =~= q + seq!['*']);
        assert(p =~= stars(a) + t + stars(b + 1));
    } else {
        assert(p =~= stars(0) + t + stars(0));
    }
}

/// The names a listing gives are exactly the stored names that match.
proof fn lemma_matching_names_members(files: Seq<(Seq<char>, Seq<u8>)>, pattern: Seq<char>, n: Seq<char>)
    ensures
        matching_names(files, pattern).contains(n) <==> exists|k: int|
            0 <= k < files.len() && #[trigger] files[k].0 == n && name_matches(n, pattern),
    decreases files.len(),
{
    if files.len() > 0 {
        let front = files.drop_last();
        lemma_matching_names_members(front, pattern, n);
        let rest = matching_names(front, pattern);
        if matching_names(files, pattern).contains(n) {
            if rest.contains(n) {
                let k = choose|k: int| 0 <= k < front.len() && #[trigger] front[k].0 == n && name_matches(n, pattern);
                assert(files[k] == front[k]);
            } else {
                let m = matching_names(files, pattern);
                let idx = choose|idx: int| 0 <= idx < m.len() && m[idx] == n;
                if name_matches(files.last().0, pattern) {
                    assert(m == rest.push(files.last().0));
                    if idx < rest.len() {
                        assert(rest[idx] == n);
                        assert(rest.contains(n));
                    }
                    assert(files[files.len() - 1].0 == n);
                } else {
                    assert(m == rest);
                }
            }
        }
        if exists|k: int| 0 <= k < files.len() && #[trigger] files[k].0 == n && name_matches(n, pattern) {
            let k = choose|k: int| 0 <= k < files.len() && #[trigger] files[k].0 == n && name_matches(n, pattern);
            if k < front.len() {
                assert(front[k] == files[k]);
                let idx = choose|idx: int| 0 <= idx < rest.len() && rest[idx] == n;
                if name_matches(files.last().0, pattern) {
                    assert(matching_names(files, pattern)[idx] == n);
                }
            } else {
                let m = matching_names(files, pattern);
                assert(m == rest.push(n));
                assert(m[rest.len() as int] == n);
            }
        }
    }
}

/// A file listing (what `MockState::get_file_list` returns and the file
/// port's service 0x32 answers with) holds exactly the stored names that the
/// pattern selects: every name for `*` or an empty pattern; for `*.EXT` the
/// names that end with `.EXT`; for any other pattern the names in which the
/// pattern without its surrounding stars stands somewhere (a name that
/// starts with it among them).
pub proof fn law_file_list_matches_pattern(files: Seq<(Seq<char>, Seq<u8>)>, pattern: Seq<char>, n: Seq<char>)
    ensures
        pattern == seq!['*'] || pattern.len() == 0 ==> (matching_names(files, pattern).contains(n) <==> exists|k: int|
            0 <= k < files.len() && #[trigger] files[k].0 == n),
        pattern.len() >= 2 && pattern[0] == '*' && pattern[1] == '.' ==> (matching_names(files, pattern).contains(
            n,
        ) <==> (exists|k: int| 0 <= k < files.len() && #[trigger] files[k].0 == n) && pattern.len() - 1
            <= n.len() && n.subrange(n.len() - (pattern.len() - 1), n.len() as int) == pattern.drop_first()),
        pattern != seq!['*'] && pattern.len() > 0 && !(pattern.len() >= 2 && pattern[0] == '*' && pattern[1]
            == '.') ==> (matching_names(files, pattern).contains(n) <==> (exists|k: int|
            0 <= k < files.len() && #[trigger] files[k].0 == n) && exists|i: int| stands_at(n, trim_stars(pattern), i)),
{
    lemma_matching_names_members(files, pattern, n);
    let t = trim_stars(pattern);
    assert((exists|i: int| stands_at(n, t, i)) <==> text_contains(n, t)) by {
        if exists|i: int| stands_at(n, t, i) {
            let i = choose|i: int| stands_at(n, t, i);
            assert(n.subrange(i, i + t.len()) == t);
        }
        if text_contains(n, t) {
            let i = choose|i: int| 0 <= i && i + t.len() <= n.len() && #[trigger] n.subrange(i, i + t.len()) == t;
            assert(stands_at(n, t, i));
        }
    }
}

/// A whole job information read (command 0x73, a task 1-6, service 0x01)
/// of an executing job is answered with its 44-byte record, which the
/// client reads back as the job: same line, step and speed override, and
/// the same name when it fits its field.
pub proof fn law_job_info_record_read_answers_the_job(
    s0: MockState,
    s1: MockState,
    j: ExecutingJobInfo,
    message: HsesRequestMessage,
    r: Result<Vec<u8>, ProtocolError>,
    k: ExecutingJobInfo,
)
    requires
        message.sub_header.command == 0x73,
        1 <= message.sub_header.instance <= 6,
        message.sub_header.attribute <= 4,
        message.sub_header.service == 0x01,
        s0.executing_job == Some(j),
        speed_fits(j),
        dispatched(s0, s1, message, r),
        r matches Ok(v) && job_info_of_bytes(v@, s0.text_encoding, k),
    ensures
        s1 == s0,
        r matches Ok(v) && v@ == job_info_bytes(j, s0.text_encoding),
        k.line_number == j.line_number,
        k.step_number == j.step_number,
        k.speed_override_value == j.speed_override_value,
        ascii_fits(j.job_name@, 32) ==> k.job_name@ == j.job_name@,
{
    law_job_info_roundtrip(j, s0.text_encoding, k);
}

/// A job information read built by `ReadExecutingJobInfo` for a task 1-6
/// and attribute 1-4, sent as the request it serializes to, is answered
/// with that attribute's field of the executing job's record; the line and
/// step numbers read back as themselves.
pub proof fn law_read_executing_job_info_reaches_controller(
    s0: MockState,
    s1: MockState,
    j: ExecutingJobInfo,
    cmd: ReadExecutingJobInfo,
    message: HsesRequestMessage,
    r: Result<Vec<u8>, ProtocolError>,
)
    requires
        1 <= cmd.instance <= 6,
        1 <= cmd.attribute <= 4,
        s0.executing_job == Some(j),
        speed_fits(j),
        carries(message, cmd),
        dispatched(s0, s1, message, r),
    ensures
        s1 == s0,
        cmd.attribute == 2 ==> (r matches Ok(v) && u32_at(v@, 0) == j.line_number),
        cmd.attribute == 3 ==> (r matches Ok(v) && u32_at(v@, 0) == j.step_number),
        cmd.attribute == 4 ==> (r matches Ok(v) && u32_at(v@, 0) / 100 == j.speed_override_value),
        r matches Ok(v) && v@ == job_info_bytes(j, s0.text_encoding).subrange(
            job_field_start(cmd.attribute),
            job_field_start(cmd.attribute) + job_field_len(cmd.attribute),
        ),
{
    law_job_info_read_answers_the_field(s0, s1, j, message, r);
}

/// Where attribute 1-4 of job information starts in its 44-byte record.
pub open spec fn job_field_start(attribute: u8) -> int {
    if attribute == 1 {
        0
    } else if attribute == 2 {
        32
    } else if attribute == 3 {
        36
    } else {
        40
    }
}

/// How many bytes attribute 1-4 of job information has.
pub open spec fn job_field_len(attribute: u8) -> int {
    if attribute == 1 {
        32
    } else {
        4
    }
}

/// Where attribute 4-8 of an alarm starts in its 268-byte record.
pub open spec fn alarm_field_start(attribute: u8) -> int {
    if attribute == 4 {
        12
    } else if attribute == 5 {
        28
    } else if attribute == 6 {
        60
    } else if attribute == 7 {
        76
    } else {
        172
    }
}

/// An alarm read (command 0x70 or 0x71) of alarm `instance` (counted from
/// 1) changes nothing and is answered with 60 bytes: all zero for no such
/// alarm; for attribute 0 the start of the alarm's record, from which the
/// client reads back the code, data, type and (when they fit) the time and
/// name; for a text attribute (4-8) the first 8 bytes of that field of the
/// record, then zeros; for attributes 1-3, zeros.
pub proof fn law_alarm_read_answers_the_alarm(
    s0: MockState,
    s1: MockState,
    message: HsesRequestMessage,
    r: Result<Vec<u8>, ProtocolError>,
)
    requires
        message.sub_header.command == 0x70 || message.sub_header.command == 0x71,
        message.sub_header.attribute <= 8,
        dispatched(s0, s1, message, r),
    ensures
        s1 == s0,
        r matches Ok(v) && v@.len() == 60,
        !(1 <= message.sub_header.instance <= s0.alarms@.len()) ==> (r matches Ok(v) && v@ == zero_run(60)),
        1 <= message.sub_header.instance <= s0.alarms@.len() ==> ({
            let a = s0.alarms@[message.sub_header.instance - 1];
            let e = s0.text_encoding;
            let at = message.sub_header.attribute;
            &&& at == 0 ==> (r matches Ok(v) && v@ == alarm_bytes(a, e).take(60) && u32_at(v@, 0) == a.code
                && u32_at(v@, 4) == a.data && u32_at(v@, 8) == a.alarm_type && (ascii_fits(a.time@, 16)
                ==> field_text(v@.subrange(12, 28), e) == a.time@) && (ascii_fits(a.name@, 32) ==> field_text(
                v@.subrange(28, 60),
                e,
            ) == a.name@))
            &&& 1 <= at <= 3 ==> (r matches Ok(v) && v@ == zero_run(60))
            &&& 4 <= at <= 8 ==> (r matches Ok(v) && v@.take(8) == alarm_bytes(a, e).subrange(
                alarm_field_start(at),
                alarm_field_start(at) + 8,
            ) && v@.skip(8) == zero_run(52))
        }),
{
    let at = message.sub_header.attribute;
    let n = message.sub_header.instance;
    let v = r->Ok_0@;
    if 1 <= n <= s0.alarms@.len() {
        let a = s0.alarms@[n - 1];
        let e = s0.text_encoding;
        law_alarm_attribute_is_its_field(a, e);
        let rec = alarm_bytes(a, e);
        if at == 0 {
            assert(rec.take(60).subrange(0, 4) =~= rec.subrange(0, 4));
            assert(rec.take(60).subrange(4, 8) =~= rec.subrange(4, 8));
            assert(rec.take(60).subrange(8, 12) =~= rec.subrange(8, 12));
            assert(v.subrange(12, 28) =~= rec.subrange(12, 28));
            assert(v.subrange(28, 60) =~= rec.subrange(28, 60));
            assert(u32_at(v, 0) == u32_at(alarm_attribute_bytes(a, 1, e), 0));
            assert(u32_at(v, 4) == u32_at(alarm_attribute_bytes(a, 2, e), 0));
            assert(u32_at(v, 8) == u32_at(alarm_attribute_bytes(a, 3, e), 0));
        } else if 1 <= at <= 3 {
            assert(v =~= zero_run(60));
        } else {
            let f = alarm_attribute_bytes(a, at, e);
            assert(f == rec.subrange(alarm_field_start(at), alarm_field_start(at) + f.len()));
            assert(f.take(8) =~= rec.subrange(alarm_field_start(at), alarm_field_start(at) + 8));
            assert(v.take(8) =~= f.take(8));
            assert(v.skip(8) =~= zero_run(52));
        }
    } else {
        assert(v =~= zero_run(60));
    }
}

/// A current position read (command 0x75) changes nothing and is answered
/// with bytes that the client reads back as the state's position: a
/// Cartesian one exactly, and the joints of a pulse one of at least six
/// axes.
pub proof fn law_position_read_answers_the_position(
    s0: MockState,
    s1: MockState,
    message: HsesRequestMessage,
    r: Result<Vec<u8>, ProtocolError>,
    decoded: Seq<i32>,
)
    requires
        message.sub_header.command == 0x75,
        dispatched(s0, s1, message, r),
    ensures
        s1 == s0,
        s0.position is Cartesian ==> (r matches Ok(v) && Position::decodable(v@) && Position::decodes_to(
            v@,
            s0.text_encoding,
            s0.position,
        )),
        s0.position matches Position::Pulse(p) ==> (p.joints@.len() >= 6 ==> (r matches Ok(v)
            && Position::decodable(v@) && (pulse_joints_of_bytes(v@, decoded) ==> decoded == p.joints@))),
{
    match s0.position {
        Position::Cartesian(c) => {
            law_cartesian_position_roundtrip(c);
        },
        Position::Pulse(p) => {
            law_pulse_position_roundtrip(p.joints@, decoded);
        },
    }
}

/// A whole-record read built by `ReadAlarmData` for an alarm that the state
/// holds (instance counted from 1), sent as the request it serializes to,
/// changes nothing and is answered with the start of that alarm's record,
/// from which the client reads back the alarm's code, data and type.
pub proof fn law_read_alarm_data_reaches_controller(
    s0: MockState,
    s1: MockState,
    cmd: ReadAlarmData,
    message: HsesRequestMessage,
    r: Result<Vec<u8>, ProtocolError>,
)
    requires
        cmd.attribute == AlarmAttribute::All,
        1 <= cmd.instance <= s0.alarms@.len(),
        carries(message, cmd),
        dispatched(s0, s1, message, r),
    ensures
        s1 == s0,
        r matches Ok(v) && v@ == alarm_bytes(s0.alarms@[cmd.instance - 1], s0.text_encoding).take(60)
            && u32_at(v@, 0) == s0.alarms@[cmd.instance - 1].code && u32_at(v@, 4) == s0.alarms@[cmd.instance
            - 1].data && u32_at(v@, 8) == s0.alarms@[cmd.instance - 1].alarm_type,
{
    law_alarm_read_answers_the_alarm(s0, s1, message, r);
}

/// A current position read built by `ReadCurrentPosition`, sent as the
/// request it serializes to, changes nothing and is answered with bytes that
/// the client reads back as the state's position (a Cartesian one exactly,
/// the joints of a pulse one of at least six axes).
pub proof fn law_read_current_position_reaches_controller(
    s0: MockState,
    s1: MockState,
    cmd: ReadCurrentPosition,
    message: HsesRequestMessage,
    r: Result<Vec<u8>, ProtocolError>,
    decoded: Seq<i32>,
)
    requires
        carries(message, cmd),
        dispatched(s0, s1, message, r),
    ensures
        s1 == s0,
        s0.position is Cartesian ==> (r matches Ok(v) && Position::decodable(v@) && Position::decodes_to(
            v@,
            s0.text_encoding,
            s0.position,
        )),
        s0.position matches Position::Pulse(p) ==> (p.joints@.len() >= 6 ==> (r matches Ok(v)
            && Position::decodable(v@) && (pulse_joints_of_bytes(v@, decoded) ==> decoded == p.joints@))),
{
    law_position_read_answers_the_position(s0, s1, message, r, decoded);
}

} // verus!
