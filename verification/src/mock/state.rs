//! The state of the simulated controller: variables, I/O, registers, alarms,
//! jobs, servo and hold flags, cycle mode and files.

use crate::commands::alarm::AlarmCategory;
use crate::commands::cycle_mode::CycleMode;
use crate::encoding::TextEncoding;
use crate::payload::alarm::Alarm;
use crate::payload::alarm::test_alarms::{
    are_test_alarms, communication_error, emergency_stop, is_communication_error, is_emergency_stop,
    is_safety_error, is_servo_error, safety_error, servo_error,
};
use crate::payload::job::ExecutingJobInfo;
use crate::payload::position::{Position, PulsePosition};
use crate::payload::status::{Status, StatusData1, StatusData2};
use crate::error::{text_with_number, text_with_two_numbers, with_number, with_two_numbers};
use crate::wire::{
    copy_range, fit_to_width, i16_of, i32_of, le_i16, le_i32, push_i16_le, push_i32_le, read_i16_le,
    read_i32_le,
};
use std::collections::HashMap;
use vstd::prelude::*;

verus! {

/// The job that the last select request chose.
#[derive(Debug, Clone)]
pub struct SelectedJobInfo {
    pub job_name: String,
    pub line_number: u32,
    /// The instance of the select request.
    pub select_type: u16,
}

/// The most alarms that one history category keeps.
pub open spec fn history_capacity() -> int {
    100
}

/// The alarm history, one list per category.
#[derive(Debug, Clone)]
pub struct AlarmHistory {
    /// Major failures (instances 1-100).
    pub major_failure: Vec<Alarm>,
    /// Monitor alarms (instances 1001-1100).
    pub monitor_alarm: Vec<Alarm>,
    /// User alarms raised by the system (instances 2001-2100).
    pub user_alarm_system: Vec<Alarm>,
    /// User alarms raised by the user (instances 3001-3100).
    pub user_alarm_user: Vec<Alarm>,
    /// Offline alarms (instances 4001-4100).
    pub offline_alarm: Vec<Alarm>,
}

impl AlarmHistory {
    /// The alarms of a category; none for an invalid one.
    pub open spec fn category(self, c: AlarmCategory) -> Seq<Alarm> {
        match c {
            AlarmCategory::MajorFailure => self.major_failure@,
            AlarmCategory::MonitorAlarm => self.monitor_alarm@,
            AlarmCategory::UserAlarmSystem => self.user_alarm_system@,
            AlarmCategory::UserAlarmUser => self.user_alarm_user@,
            AlarmCategory::OfflineAlarm => self.offline_alarm@,
            AlarmCategory::Invalid => Seq::empty(),
        }
    }

    /// The alarm at `index` of a category, if it has that many.
    pub fn get_alarm(&self, category: AlarmCategory, index: usize) -> (r: Option<&Alarm>)
        ensures
            index < self.category(category).len() ==> r == Some(&self.category(category)[index as int]),
            index >= self.category(category).len() ==> r is None,
    {
        let list = match category {
            AlarmCategory::MajorFailure => &self.major_failure,
            AlarmCategory::MonitorAlarm => &self.monitor_alarm,
            AlarmCategory::UserAlarmSystem => &self.user_alarm_system,
            AlarmCategory::UserAlarmUser => &self.user_alarm_user,
            AlarmCategory::OfflineAlarm => &self.offline_alarm,
            AlarmCategory::Invalid => {
                return None;
            },
        };
        if index < list.len() {
            Some(&list[index])
        } else {
            None
        }
    }

    /// Appends an alarm to a category that holds fewer than 100; a full
    /// category and an invalid one stay as they are.
    pub fn add_alarm(&mut self, category: AlarmCategory, alarm: Alarm)
        ensures
            forall|c: AlarmCategory|
                #![trigger final(self).category(c)]
                c != category ==> final(self).category(c) == old(self).category(c),
            category != AlarmCategory::Invalid && old(self).category(category).len() < history_capacity()
                ==> final(self).category(category) == old(self).category(category).push(alarm),
            !(category != AlarmCategory::Invalid && old(self).category(category).len()
                < history_capacity()) ==> final(self).category(category) == old(self).category(category),
    {
        match category {
            AlarmCategory::MajorFailure => {
                if self.major_failure.len() < 100 {
                    self.major_failure.push(alarm);
                }
            },
            AlarmCategory::MonitorAlarm => {
                if self.monitor_alarm.len() < 100 {
                    self.monitor_alarm.push(alarm);
                }
            },
            AlarmCategory::UserAlarmSystem => {
                if self.user_alarm_system.len() < 100 {
                    self.user_alarm_system.push(alarm);
                }
            },
            AlarmCategory::UserAlarmUser => {
                if self.user_alarm_user.len() < 100 {
                    self.user_alarm_user.push(alarm);
                }
            },
            AlarmCategory::OfflineAlarm => {
                if self.offline_alarm.len() < 100 {
                    self.offline_alarm.push(alarm);
                }
            },
            AlarmCategory::Invalid => {},
        }
    }

    /// Empties every category.
    pub fn clear_all(&mut self)
        ensures
            forall|c: AlarmCategory| #[trigger] final(self).category(c) == Seq::<Alarm>::empty(),
    {
        self.major_failure.clear();
        self.monitor_alarm.clear();
        self.user_alarm_system.clear();
        self.user_alarm_user.clear();
        self.offline_alarm.clear();
    }
}

impl Default for AlarmHistory {
    /// An empty history.
    fn default() -> (r: Self)
        ensures
            forall|c: AlarmCategory| #[trigger] r.category(c) == Seq::<Alarm>::empty(),
    {
        Self {
            major_failure: Vec::new(),
            monitor_alarm: Vec::new(),
            user_alarm_system: Vec::new(),
            user_alarm_user: Vec::new(),
            offline_alarm: Vec::new(),
        }
    }
}

/// The state of the simulated controller.
#[derive(Debug, Clone)]
pub struct MockState {
    pub text_encoding: TextEncoding,
    pub status: Status,
    pub position: Position,
    /// Variable bytes by variable number (B, I, D, R and S share numbers).
    pub variables: HashMap<u16, Vec<u8>>,
    /// I/O signal states by I/O number.
    pub io_states: HashMap<u16, bool>,
    /// Register values by register number.
    pub registers: HashMap<u16, i16>,
    /// The current alarms, latest first.
    pub alarms: Vec<Alarm>,
    pub alarm_history: AlarmHistory,
    pub executing_job: Option<ExecutingJobInfo>,
    pub selected_job: Option<SelectedJobInfo>,
    pub servo_on: bool,
    pub hold_state: bool,
    pub hlock_state: bool,
    pub cycle_mode: CycleMode,
    /// The files: name and content, each name once.
    pub files: Vec<(String, Vec<u8>)>,
}

/// The names and contents of stored files.
pub open spec fn files_view(files: Seq<(String, Vec<u8>)>) -> Seq<(Seq<char>, Seq<u8>)> {
    files.map_values(|f: (String, Vec<u8>)| (f.0@, f.1@))
}

/// Whether no two stored files share a name.
pub open spec fn names_distinct(files: Seq<(Seq<char>, Seq<u8>)>) -> bool {
    forall|i: int, j: int| 0 <= i < j < files.len() ==> files[i].0 != files[j].0
}

/// The state of a status with the alarm flag set to `alarm`.
pub open spec fn with_alarm_flag(s: Status, alarm: bool) -> Status {
    Status { data2: StatusData2 { alarm, ..s.data2 }, ..s }
}

/// The contents of the test job file.
pub open spec fn test_job_file() -> Seq<u8> {
    "/JOB\r\n//NAME TEST.JBI\r\n//POS\r\n///NPOS 0,0,0,0,0,0\r\n//INST\r\n///DATE 2022/12/23 15:58\r\n///ATTR SC,RW\r\n///GROUP1 RB1\r\nNOP\r\nEND\r\n"@.map_values(
        |c: char| c as u8,
    )
}

/// The status of the test state: continuous play, alarm and servo on.
pub open spec fn test_status() -> Status {
    Status {
        data1: StatusData1 {
            step: false,
            one_cycle: false,
            continuous: true,
            running: false,
            speed_limited: false,
            teach: false,
            play: true,
            remote: false,
        },
        data2: StatusData2 {
            teach_pendant_hold: false,
            external_hold: false,
            command_hold: false,
            alarm: true,
            error: false,
            servo_on: true,
        },
    }
}

/// Copies the bytes of a string literal that holds ASCII only.
fn ascii_bytes(s: &str) -> (r: Vec<u8>)
    requires
        vstd::utf8::is_ascii_chars(s@),
    ensures
        r@ == s@.map_values(|c: char| c as u8),
{
    let mut out: Vec<u8> = Vec::new();
    for c in it: s.chars()
        invariant
            it.seq() == s@,
            vstd::utf8::is_ascii_chars(s@),
            out@ == it.seq().take(it.index() as int).map_values(|c: char| c as u8),
    {
        assert(it.seq()[it.index() as int] == c);
        assert((c as u32) < 128);
        out.push(c as u32 as u8);
        assert(out@ =~= it.seq().take(it.index() + 1).map_values(|c: char| c as u8));
    }
    out
}

impl MockState {
    /// Whether the state is well formed: no two files share a name.
    pub open spec fn valid(self) -> bool {
        names_distinct(files_view(self.files@))
    }
}

impl Default for MockState {
    /// The test state (see `MockState::is_test_state`).
    fn default() -> (r: Self)
        ensures
            r.is_test_state(),
    {
        Self::new_with_test_data()
    }
}

/// The test alarm history: servo error, emergency stop and safety error
/// first among the major failures; communication error and servo error
/// among the monitor alarms; no user or offline alarms.
pub open spec fn test_history(h: AlarmHistory) -> bool {
    let major = h.category(AlarmCategory::MajorFailure);
    let monitor = h.category(AlarmCategory::MonitorAlarm);
    &&& major.len() >= 3
    &&& is_servo_error(major[0]) && is_emergency_stop(major[1]) && is_safety_error(major[2])
    &&& monitor.len() == 2
    &&& is_communication_error(monitor[0]) && is_servo_error(monitor[1])
    &&& h.category(AlarmCategory::UserAlarmSystem).len() == 0
    &&& h.category(AlarmCategory::UserAlarmUser).len() == 0
    &&& h.category(AlarmCategory::OfflineAlarm).len() == 0
}

impl MockState {
    /// The state a simulated controller starts with: UTF-8 text, the test
    /// status, an all-zero pulse position of 8 axes, no variables, input 1
    /// on and output 1001 off, registers 0 and 1 holding 0 and 100, the four
    /// test alarms, three major failures and two monitor alarms in the
    /// history, job TEST.JOB at line 2 step 1 and 100 % running, nothing
    /// selected, servo on, no hold or HLOCK, continuous cycle, and the file
    /// TEST.JBI.
    pub open spec fn is_test_state(self) -> bool {
        &&& self.text_encoding == TextEncoding::Utf8
        &&& self.status == test_status()
        &&& self.position matches Position::Pulse(p) && p.joints@ == seq![0i32, 0, 0, 0, 0, 0, 0, 0]
        &&& self.variables@ == Map::<u16, Vec<u8>>::empty()
        &&& self.io_states@ == map![1u16 => true, 1001u16 => false]
        &&& self.registers@ == map![0u16 => 0i16, 1u16 => 100i16]
        &&& are_test_alarms(self.alarms@)
        &&& test_history(self.alarm_history)
        &&& self.alarm_history.category(AlarmCategory::MajorFailure).len() == 3
        &&& self.executing_job matches Some(j) && j.job_name@ == "TEST.JOB"@ && j.line_number == 2
            && j.step_number == 1 && j.speed_override_value == 100
        &&& self.selected_job is None
        &&& self.servo_on && !self.hold_state && !self.hlock_state
        &&& self.cycle_mode == CycleMode::Continuous
        &&& files_view(self.files@) == seq![("TEST.JBI"@, test_job_file())]
    }

    /// The state a simulated controller starts with.
    fn new_with_test_data() -> (r: Self)
        ensures
            r.is_test_state(),
    {
        let variables: HashMap<u16, Vec<u8>> = HashMap::new();
        let mut io_states: HashMap<u16, bool> = HashMap::new();
        io_states.insert(1, true);
        io_states.insert(1001, false);
        let mut registers: HashMap<u16, i16> = HashMap::new();
        registers.insert(0, 0);
        registers.insert(1, 100);
        let mut files: Vec<(String, Vec<u8>)> = Vec::new();
        proof {
            reveal_strlit("/JOB\r\n//NAME TEST.JBI\r\n//POS\r\n///NPOS 0,0,0,0,0,0\r\n//INST\r\n///DATE 2022/12/23 15:58\r\n///ATTR SC,RW\r\n///GROUP1 RB1\r\nNOP\r\nEND\r\n");
        }
        let content = ascii_bytes(
            "/JOB\r\n//NAME TEST.JBI\r\n//POS\r\n///NPOS 0,0,0,0,0,0\r\n//INST\r\n///DATE 2022/12/23 15:58\r\n///ATTR SC,RW\r\n///GROUP1 RB1\r\nNOP\r\nEND\r\n",
        );
        files.push(("TEST.JBI".to_string(), content));
        let alarms: Vec<Alarm> = vec![servo_error(), emergency_stop(), safety_error(), communication_error()];
        let mut alarm_history = AlarmHistory::default();
        alarm_history.add_alarm(AlarmCategory::MajorFailure, servo_error());
        alarm_history.add_alarm(AlarmCategory::MajorFailure, emergency_stop());
        alarm_history.add_alarm(AlarmCategory::MajorFailure, safety_error());
        alarm_history.add_alarm(AlarmCategory::MonitorAlarm, communication_error());
        alarm_history.add_alarm(AlarmCategory::MonitorAlarm, servo_error());
        let r = Self {
            text_encoding: TextEncoding::Utf8,
            status: Status::new(
                StatusData1 {
                    step: false,
                    one_cycle: false,
                    continuous: true,
                    running: false,
                    speed_limited: false,
                    teach: false,
                    play: true,
                    remote: false,
                },
                StatusData2 {
                    teach_pendant_hold: false,
                    external_hold: false,
                    command_hold: false,
                    alarm: true,
                    error: false,
                    servo_on: true,
                },
            ),
            position: Position::Pulse(PulsePosition::new(vec![0, 0, 0, 0, 0, 0, 0, 0])),
            variables,
            io_states,
            registers,
            alarms,
            alarm_history,
            executing_job: Some(ExecutingJobInfo::new("TEST.JOB".to_string(), 2, 1, 100)),
            selected_job: None,
            servo_on: true,
            hold_state: false,
            hlock_state: false,
            cycle_mode: CycleMode::Continuous,
            files,
        };
        assert(r.io_states@ =~= map![1u16 => true, 1001u16 => false]);
        assert(r.registers@ =~= map![0u16 => 0i16, 1u16 => 100i16]);
        assert(files_view(r.files@) =~= seq![("TEST.JBI"@, test_job_file())]);
        r
    }

    /// The bytes of variable `index`, if it was ever set.
    pub fn get_variable(&self, index: u16) -> (r: Option<&Vec<u8>>)
        ensures
            self.variables@.contains_key(index) ==> r == Some(&self.variables@[index]),
            !self.variables@.contains_key(index) ==> r is None,
    {
        self.variables.get(&index)
    }

    /// Stores the bytes of variable `index`.
    pub fn set_variable(&mut self, index: u16, value: Vec<u8>)
        ensures
            *final(self) == (MockState { variables: final(self).variables, ..*old(self) }),
            final(self).variables@ == old(self).variables@.insert(index, value),
            final(self).io_states@ == old(self).io_states@,
            final(self).registers@ == old(self).registers@,
            final(self).files@ == old(self).files@,
    {
        self.variables.insert(index, value);
    }

    /// The state of an I/O signal; one never set is off.
    pub fn get_io_state(&self, io_number: u16) -> (r: bool)
        ensures
            r == io_state_of(self.io_states@, io_number as int),
    {
        match self.io_states.get(&io_number) {
            Some(v) => *v,
            None => false,
        }
    }

    /// Sets the state of an I/O signal.
    pub fn set_io_state(&mut self, io_number: u16, state: bool)
        ensures
            *final(self) == (MockState { io_states: final(self).io_states, ..*old(self) }),
            final(self).io_states@ == old(self).io_states@.insert(io_number, state),
            final(self).variables@ == old(self).variables@,
            final(self).registers@ == old(self).registers@,
    {
        self.io_states.insert(io_number, state);
    }

    /// The value of a register; one never set holds 0.
    pub fn get_register(&self, reg_number: u16) -> (r: i16)
        ensures
            r == register_of(self.registers@, reg_number as int),
    {
        match self.registers.get(&reg_number) {
            Some(v) => *v,
            None => 0,
        }
    }

    /// Sets the value of a register.
    pub fn set_register(&mut self, reg_number: u16, value: i16)
        ensures
            *final(self) == (MockState { registers: final(self).registers, ..*old(self) }),
            final(self).registers@ == old(self).registers@.insert(reg_number, value),
            final(self).variables@ == old(self).variables@,
            final(self).io_states@ == old(self).io_states@,
    {
        self.registers.insert(reg_number, value);
    }

    /// Raises an alarm: appends it and sets the alarm flag.
    pub fn add_alarm(&mut self, alarm: Alarm)
        ensures
            *final(self) == (MockState { alarms: final(self).alarms, status: final(self).status, ..*old(self) }),
            final(self).alarms@ == old(self).alarms@.push(alarm),
            final(self).status == with_alarm_flag(old(self).status, true),
    {
        self.alarms.push(alarm);
        self.status.data2.alarm = true;
    }

    /// Clears every alarm and the alarm flag.
    pub fn clear_alarms(&mut self)
        ensures
            *final(self) == (MockState { alarms: final(self).alarms, status: final(self).status, ..*old(self) }),
            final(self).alarms@ == Seq::<Alarm>::empty(),
            final(self).status == with_alarm_flag(old(self).status, false),
    {
        self.alarms.clear();
        self.status.data2.alarm = false;
    }

    /// Turns the servo power on or off, in the flag and in the status.
    pub fn set_servo(&mut self, on: bool)
        ensures
            *final(self) == (MockState { servo_on: final(self).servo_on, status: final(self).status, ..*old(self) }),
            final(self).servo_on == on,
            final(self).status == (Status {
                data2: StatusData2 { servo_on: on, ..old(self).status.data2 },
                ..old(self).status
            }),
            final(self).hold_state == old(self).hold_state,
            final(self).hlock_state == old(self).hlock_state,
    {
        self.servo_on = on;
        self.status.data2.servo_on = on;
    }

    /// Sets or releases the hold: the flag, the command hold of the status,
    /// and the running flag (off while held, on once released).
    pub fn set_hold(&mut self, hold: bool)
        ensures
            *final(self) == (MockState { hold_state: final(self).hold_state, status: final(self).status, ..*old(self) }),
            final(self).hold_state == hold,
            final(self).status == (Status {
                data1: StatusData1 { running: !hold, ..old(self).status.data1 },
                data2: StatusData2 { command_hold: hold, ..old(self).status.data2 },
            }),
            final(self).servo_on == old(self).servo_on,
            final(self).hlock_state == old(self).hlock_state,
    {
        self.hold_state = hold;
        self.status.data2.command_hold = hold;
        if hold {
            self.status.data1.running = false;
        } else {
            self.status.data1.running = true;
        }
    }

    /// Sets the running flag of the status.
    pub fn set_running(&mut self, running: bool)
        ensures
            *final(self) == (MockState { status: final(self).status, ..*old(self) }),
            final(self).status == (Status {
                data1: StatusData1 { running, ..old(self).status.data1 },
                ..old(self).status
            }),
    {
        self.status.data1.running = running;
    }

    /// The running flag of the status.
    pub fn get_running(&self) -> (r: bool)
        ensures
            r == self.status.data1.running,
    {
        self.status.data1.running
    }

    /// Sets the executing job.
    pub fn set_executing_job(&mut self, job: Option<ExecutingJobInfo>)
        ensures
            *final(self) == (MockState { executing_job: final(self).executing_job, ..*old(self) }),
            final(self).executing_job == job,
    {
        self.executing_job = job;
    }

    /// Records the selected job.
    pub fn set_selected_job(&mut self, job_name: String, line_number: u32, select_type: u16)
        ensures
            *final(self) == (MockState { selected_job: final(self).selected_job, ..*old(self) }),
            final(self).selected_job matches Some(j) && j.job_name@ == job_name@ && j.line_number
                == line_number && j.select_type == select_type,
    {
        self.selected_job = Some(SelectedJobInfo { job_name, line_number, select_type });
    }

    /// The selected job, if any.
    pub fn get_selected_job(&self) -> (r: Option<&SelectedJobInfo>)
        ensures
            self.selected_job matches Some(j) ==> r == Some(&j),
            self.selected_job is None ==> r is None,
    {
        match &self.selected_job {
            Some(j) => Some(j),
            None => None,
        }
    }

    /// Replaces the position.
    pub fn update_position(&mut self, position: Position)
        ensures
            *final(self) == (MockState { position: final(self).position, ..*old(self) }),
            final(self).position == position,
    {
        self.position = position;
    }

    /// Sets the HLOCK flag.
    pub fn set_hlock(&mut self, enabled: bool)
        ensures
            *final(self) == (MockState { hlock_state: final(self).hlock_state, ..*old(self) }),
            final(self).hlock_state == enabled,
            final(self).status == old(self).status,
    {
        self.hlock_state = enabled;
    }

    /// The HLOCK flag.
    pub fn is_hlock_enabled(&self) -> (r: bool)
        ensures
            r == self.hlock_state,
    {
        self.hlock_state
    }

    /// Sets the cycle mode.
    pub fn set_cycle_mode(&mut self, mode: CycleMode)
        ensures
            *final(self) == (MockState { cycle_mode: final(self).cycle_mode, ..*old(self) }),
            final(self).cycle_mode == mode,
    {
        self.cycle_mode = mode;
    }

    /// The cycle mode.
    pub fn get_cycle_mode(&self) -> (r: CycleMode)
        ensures
            r == self.cycle_mode,
    {
        self.cycle_mode
    }
}

/// The state of I/O signal `n`: the stored one, or off.
pub open spec fn io_state_of(m: Map<u16, bool>, n: int) -> bool {
    if 0 <= n <= u16::MAX && m.contains_key(n as u16) {
        m[n as u16]
    } else {
        false
    }
}

/// The value of register `n`: the stored one, or 0.
pub open spec fn register_of(m: Map<u16, i16>, n: int) -> i16 {
    if 0 <= n <= u16::MAX && m.contains_key(n as u16) {
        m[n as u16]
    } else {
        0
    }
}

/// The bytes of variable `n`, if it was ever set.
pub open spec fn var_at(m: Map<u16, Vec<u8>>, n: int) -> Option<Seq<u8>> {
    if 0 <= n <= u16::MAX && m.contains_key(n as u16) {
        Some(m[n as u16]@)
    } else {
        None
    }
}

/// B variable `n`: its first byte, or 0.
pub open spec fn byte_var(m: Map<u16, Vec<u8>>, n: int) -> u8 {
    match var_at(m, n) {
        Some(b) => if b.len() >= 1 { b[0] } else { 0 },
        None => 0,
    }
}

/// I variable `n`: its first two bytes, little-endian, or 0.
pub open spec fn int_var(m: Map<u16, Vec<u8>>, n: int) -> i16 {
    match var_at(m, n) {
        Some(b) => if b.len() >= 2 { i16_of(b[0], b[1]) } else { 0 },
        None => 0,
    }
}

/// D variable `n`: its first four bytes, little-endian, or 0.
pub open spec fn double_var(m: Map<u16, Vec<u8>>, n: int) -> i32 {
    match var_at(m, n) {
        Some(b) => if b.len() >= 4 { i32_of(b[0], b[1], b[2], b[3]) } else { 0 },
        None => 0,
    }
}

/// S variable `n`: its bytes cut or zero-padded to 16.
pub open spec fn char_var(m: Map<u16, Vec<u8>>, n: int) -> Seq<u8> {
    match var_at(m, n) {
        Some(b) => fit_to_width(b, 16),
        None => fit_to_width(Seq::empty(), 16),
    }
}

/// Whether `new` is `old` with variables `start` on set to `vals` (one
/// byte sequence each) and every other variable unchanged.
pub open spec fn vars_written(old: Map<u16, Vec<u8>>, new: Map<u16, Vec<u8>>, start: int, vals: Seq<Seq<u8>>) -> bool {
    forall|k: u16|
        #![trigger new.contains_key(k)]
        #![trigger old.contains_key(k)]
        if start <= k < start + vals.len() {
            new.contains_key(k) && new[k]@ == vals[k - start]
        } else {
            new.contains_key(k) == old.contains_key(k) && (old.contains_key(k) ==> new[k] == old[k])
        }
}

/// Setting the next variable after those already written extends the write.
pub proof fn lemma_vars_written_step(
    old: Map<u16, Vec<u8>>,
    prev: Map<u16, Vec<u8>>,
    new: Map<u16, Vec<u8>>,
    start: int,
    vals: Seq<Seq<u8>>,
    key: u16,
    val: Vec<u8>,
)
    requires
        vars_written(old, prev, start, vals),
        new == prev.insert(key, val),
        key == start + vals.len(),
    ensures
        vars_written(old, new, start, vals.push(val@)),
{
    let nv = vals.push(val@);
    assert forall|k: u16| #![trigger new.contains_key(k)] #![trigger old.contains_key(k)] true implies (if start <= k
        < start + nv.len() {
        new.contains_key(k) && new[k]@ == nv[k - start]
    } else {
        new.contains_key(k) == old.contains_key(k) && (old.contains_key(k) ==> new[k] == old[k])
    }) by {
        if k != key {
            assert(prev.contains_key(k) == prev.contains_key(k));
        }
    }
}

/// Whether `new` is `old` with registers `start` to `start + len - 1` set to
/// `values` and every other register unchanged.
pub open spec fn registers_written(old: Map<u16, i16>, new: Map<u16, i16>, start: int, len: int, values: Seq<i16>) -> bool {
    forall|k: u16|
        #![trigger new.contains_key(k)]
        #![trigger old.contains_key(k)]
        if start <= k < start + len {
            new.contains_key(k) && new[k] == values[k - start]
        } else {
            new.contains_key(k) == old.contains_key(k) && (old.contains_key(k) ==> new[k] == old[k])
        }
}

/// The first `k` bits (0-8) of the I/O byte that starts at I/O number `base`:
/// bit `b` is set when signal `base + b` is on.
pub open spec fn io_bits(m: Map<u16, bool>, base: int, k: nat) -> u8
    decreases k,
{
    if k == 0 {
        0
    } else {
        let b = io_bits(m, base, (k - 1) as nat);
        if io_state_of(m, base + k - 1) {
            b | ((1u8 << ((k - 1) as u8)) as u8)
        } else {
            b
        }
    }
}

/// The I/O byte that starts at I/O number `base`.
pub open spec fn io_byte(m: Map<u16, bool>, base: int) -> u8 {
    io_bits(m, base, 8)
}

/// Bit `j` of the I/O data, counting from the low bit of the first byte.
pub open spec fn data_bit(data: Seq<u8>, j: int) -> bool {
    (data[j / 8] >> ((j % 8) as u8)) & 1u8 == 1u8
}

/// Whether `new` is `old` with I/O numbers `start` to `end - 1` set from
/// the bits of `data` and every other signal unchanged.
pub open spec fn io_written(old: Map<u16, bool>, new: Map<u16, bool>, start: int, end: int, data: Seq<u8>) -> bool {
    io_written_range(old, new, start, start, end, data)
}

impl MockState {
    /// B variables `start` on: the first byte of each, or 0.
    pub fn get_multiple_byte_variables(&self, start_variable: u16, count: usize) -> (r: Vec<u8>)
        requires
            start_variable + count <= 0x1_0000,
        ensures
            r@.len() == count,
            forall|i: int| 0 <= i < count ==> #[trigger] r@[i] == byte_var(self.variables@, start_variable + i),
    {
        let mut values: Vec<u8> = Vec::new();
        let mut i: usize = 0;
        while i < count
            invariant
                start_variable + count <= 0x1_0000,
                i <= count,
                values@.len() == i,
                forall|j: int| 0 <= j < i ==> #[trigger] values@[j] == byte_var(self.variables@, start_variable + j),
            decreases count - i,
        {
            let n = start_variable + i as u16;
            let v = match self.get_variable(n) {
                Some(data) => if data.len() >= 1 { data[0] } else { 0 },
                None => 0,
            };
            values.push(v);
            i = i + 1;
        }
        values
    }

    /// Sets B variables `start` on, one byte each.
    pub fn set_multiple_byte_variables(&mut self, start_variable: u16, values: &[u8])
        requires
            start_variable + values@.len() <= 0x1_0000,
        ensures
            *final(self) == (MockState { variables: final(self).variables, ..*old(self) }),
            vars_written(old(self).variables@, final(self).variables@, start_variable as int, values@.map_values(|b: u8| seq![b])),
    {
        let ghost old_vars = self.variables@;
        let mut i: usize = 0;
        while i < values.len()
            invariant
                *self == (MockState { variables: self.variables, ..*old(self) }),
                start_variable + values@.len() <= 0x1_0000,
                i <= values@.len(),
                vars_written(old_vars, self.variables@, start_variable as int, values@.take(i as int).map_values(|b: u8| seq![b])),
            decreases values@.len() - i,
        {
            let mut v: Vec<u8> = Vec::new();
            v.push(values[i]);
            assert(v@ =~= seq![values@[i as int]]);
            let ghost vv = v@;
            let ghost prev = self.variables@;
            let ghost key = (start_variable + i) as u16;
            self.set_variable(start_variable + i as u16, v);
            i = i + 1;
            assert(values@.take(i as int).map_values(|b: u8| seq![b]) =~= values@.take(i - 1).map_values(|b: u8| seq![b]).push(vv));
            proof {
                lemma_vars_written_step(old_vars, prev, self.variables@, start_variable as int,
                    values@.take(i - 1).map_values(|b: u8| seq![b]), key, self.variables@[key]);
            }
        }
        assert(values@.take(i as int) =~= values@);
    }

    /// I variables `start` on: the first two bytes of each, or 0.
    pub fn get_multiple_integer_variables(&self, start_variable: u16, count: usize) -> (r: Vec<i16>)
        requires
            start_variable + count <= 0x1_0000,
        ensures
            r@.len() == count,
            forall|i: int| 0 <= i < count ==> #[trigger] r@[i] == int_var(self.variables@, start_variable + i),
    {
        let mut values: Vec<i16> = Vec::new();
        let mut i: usize = 0;
        while i < count
            invariant
                start_variable + count <= 0x1_0000,
                i <= count,
                values@.len() == i,
                forall|j: int| 0 <= j < i ==> #[trigger] values@[j] == int_var(self.variables@, start_variable + j),
            decreases count - i,
        {
            let n = start_variable + i as u16;
            let v = match self.get_variable(n) {
                Some(data) => if data.len() >= 2 { read_i16_le(data.as_slice(), 0) } else { 0 },
                None => 0,
            };
            values.push(v);
            i = i + 1;
        }
        values
    }

    /// Sets I variables `start` on, two little-endian bytes each.
    pub fn set_multiple_integer_variables(&mut self, start_variable: u16, values: &[i16])
        requires
            start_variable + values@.len() <= 0x1_0000,
        ensures
            *final(self) == (MockState { variables: final(self).variables, ..*old(self) }),
            vars_written(old(self).variables@, final(self).variables@, start_variable as int, values@.map_values(|v: i16| le_i16(v))),
    {
        let ghost old_vars = self.variables@;
        let mut i: usize = 0;
        while i < values.len()
            invariant
                *self == (MockState { variables: self.variables, ..*old(self) }),
                start_variable + values@.len() <= 0x1_0000,
                i <= values@.len(),
                vars_written(old_vars, self.variables@, start_variable as int, values@.take(i as int).map_values(|v: i16| le_i16(v))),
            decreases values@.len() - i,
        {
            let mut v: Vec<u8> = Vec::new();
            push_i16_le(&mut v, values[i]);
            assert(v@ =~= le_i16(values@[i as int]));
            let ghost vv = v@;
            let ghost prev = self.variables@;
            let ghost key = (start_variable + i) as u16;
            self.set_variable(start_variable + i as u16, v);
            i = i + 1;
            assert(values@.take(i as int).map_values(|v: i16| le_i16(v)) =~= values@.take(i - 1).map_values(|v: i16| le_i16(v)).push(vv));
            proof {
                lemma_vars_written_step(old_vars, prev, self.variables@, start_variable as int,
                    values@.take(i - 1).map_values(|v: i16| le_i16(v)), key, self.variables@[key]);
            }
        }
        assert(values@.take(i as int) =~= values@);
    }

    /// D variables `start` on: the first four bytes of each, or 0.
    pub fn get_multiple_double_variables(&self, start_variable: u16, count: usize) -> (r: Vec<i32>)
        requires
            start_variable + count <= 0x1_0000,
        ensures
            r@.len() == count,
            forall|i: int| 0 <= i < count ==> #[trigger] r@[i] == double_var(self.variables@, start_variable + i),
    {
        let mut values: Vec<i32> = Vec::new();
        let mut i: usize = 0;
        while i < count
            invariant
                start_variable + count <= 0x1_0000,
                i <= count,
                values@.len() == i,
                forall|j: int| 0 <= j < i ==> #[trigger] values@[j] == double_var(self.variables@, start_variable + j),
            decreases count - i,
        {
            let n = start_variable + i as u16;
            let v = match self.get_variable(n) {
                Some(data) => if data.len() >= 4 { read_i32_le(data.as_slice(), 0) } else { 0 },
                None => 0,
            };
            values.push(v);
            i = i + 1;
        }
        values
    }

    /// Sets D variables `start` on, four little-endian bytes each.
    pub fn set_multiple_double_variables(&mut self, start_variable: u16, values: &[i32])
        requires
            start_variable + values@.len() <= 0x1_0000,
        ensures
            *final(self) == (MockState { variables: final(self).variables, ..*old(self) }),
            vars_written(old(self).variables@, final(self).variables@, start_variable as int, values@.map_values(|v: i32| le_i32(v))),
    {
        let ghost old_vars = self.variables@;
        let mut i: usize = 0;
        while i < values.len()
            invariant
                *self == (MockState { variables: self.variables, ..*old(self) }),
                start_variable + values@.len() <= 0x1_0000,
                i <= values@.len(),
                vars_written(old_vars, self.variables@, start_variable as int, values@.take(i as int).map_values(|v: i32| le_i32(v))),
            decreases values@.len() - i,
        {
            let mut v: Vec<u8> = Vec::new();
            push_i32_le(&mut v, values[i]);
            assert(v@ =~= le_i32(values@[i as int]));
            let ghost vv = v@;
            let ghost prev = self.variables@;
            let ghost key = (start_variable + i) as u16;
            self.set_variable(start_variable + i as u16, v);
            i = i + 1;
            assert(values@.take(i as int).map_values(|v: i32| le_i32(v)) =~= values@.take(i - 1).map_values(|v: i32| le_i32(v)).push(vv));
            proof {
                lemma_vars_written_step(old_vars, prev, self.variables@, start_variable as int,
                    values@.take(i - 1).map_values(|v: i32| le_i32(v)), key, self.variables@[key]);
            }
        }
        assert(values@.take(i as int) =~= values@);
    }

    /// S variables `start` on: the bytes of each cut or zero-padded to 16.
    pub fn get_multiple_character_variables(&self, start_variable: u16, count: usize) -> (r: Vec<[u8; 16]>)
        requires
            start_variable + count <= 0x1_0000,
        ensures
            r@.len() == count,
            forall|i: int| 0 <= i < count ==> #[trigger] r@[i]@ == char_var(self.variables@, start_variable + i),
    {
        let mut values: Vec<[u8; 16]> = Vec::new();
        let mut i: usize = 0;
        while i < count
            invariant
                start_variable + count <= 0x1_0000,
                i <= count,
                values@.len() == i,
                forall|j: int| 0 <= j < i ==> #[trigger] values@[j]@ == char_var(self.variables@, start_variable + j),
            decreases count - i,
        {
            let n = start_variable + i as u16;
            let v = match self.get_variable(n) {
                Some(data) => fixed_16(data.as_slice()),
                None => fixed_16(&[]),
            };
            values.push(v);
            i = i + 1;
        }
        values
    }

    /// Sets S variables `start` on, 16 bytes each.
    pub fn set_multiple_character_variables(&mut self, start_variable: u16, values: &[[u8; 16]])
        requires
            start_variable + values@.len() <= 0x1_0000,
        ensures
            *final(self) == (MockState { variables: final(self).variables, ..*old(self) }),
            vars_written(old(self).variables@, final(self).variables@, start_variable as int, values@.map_values(|a: [u8; 16]| a@)),
    {
        let ghost old_vars = self.variables@;
        let mut i: usize = 0;
        while i < values.len()
            invariant
                *self == (MockState { variables: self.variables, ..*old(self) }),
                start_variable + values@.len() <= 0x1_0000,
                i <= values@.len(),
                vars_written(old_vars, self.variables@, start_variable as int, values@.take(i as int).map_values(|a: [u8; 16]| a@)),
            decreases values@.len() - i,
        {
            let item: [u8; 16] = values[i];
            let v = copy_range(item.as_slice(), 0, 16);
            assert(v@ =~= values@[i as int]@);
            let ghost vv = v@;
            let ghost prev = self.variables@;
            let ghost key = (start_variable + i) as u16;
            self.set_variable(start_variable + i as u16, v);
            i = i + 1;
            assert(values@.take(i as int).map_values(|a: [u8; 16]| a@) =~= values@.take(i - 1).map_values(|a: [u8; 16]| a@).push(vv));
            proof {
                lemma_vars_written_step(old_vars, prev, self.variables@, start_variable as int,
                    values@.take(i - 1).map_values(|a: [u8; 16]| a@), key, self.variables@[key]);
            }
        }
        assert(values@.take(i as int) =~= values@);
    }

    /// Registers `start` on; one never set holds 0.
    pub fn get_multiple_registers(&self, start_register: u16, count: usize) -> (r: Vec<i16>)
        requires
            start_register + count <= 0x1_0000,
        ensures
            r@.len() == count,
            forall|i: int| 0 <= i < count ==> #[trigger] r@[i] == register_of(self.registers@, start_register + i),
    {
        let mut values: Vec<i16> = Vec::new();
        let mut i: usize = 0;
        while i < count
            invariant
                start_register + count <= 0x1_0000,
                i <= count,
                values@.len() == i,
                forall|j: int| 0 <= j < i ==> #[trigger] values@[j] == register_of(self.registers@, start_register + j),
            decreases count - i,
        {
            values.push(self.get_register(start_register + i as u16));
            i = i + 1;
        }
        values
    }

    /// Sets registers `start` on.
    pub fn set_multiple_registers(&mut self, start_register: u16, values: &[i16])
        requires
            start_register + values@.len() <= 0x1_0000,
        ensures
            *final(self) == (MockState { registers: final(self).registers, ..*old(self) }),
            registers_written(old(self).registers@, final(self).registers@, start_register as int, values@.len() as int, values@),
    {
        let ghost old_regs = self.registers@;
        let mut i: usize = 0;
        while i < values.len()
            invariant
                *self == (MockState { registers: self.registers, ..*old(self) }),
                start_register + values@.len() <= 0x1_0000,
                i <= values@.len(),
                registers_written(old_regs, self.registers@, start_register as int, i as int, values@),
            decreases values@.len() - i,
        {
            self.set_register(start_register + i as u16, values[i]);
            i = i + 1;
        }
    }

    /// The I/O bytes from I/O number `start` on, eight signals each (bit `b`
    /// of byte `i` is signal `start + 8 i + b`). An I/O number past 65535 is
    /// refused.
    pub fn get_multiple_io_states(&self, start_io_number: u16, count: usize) -> (r: Result<Vec<u8>, String>)
        ensures
            r is Ok <==> start_io_number + 8 * count <= 0x1_0000,
            r matches Err(m) ==> m@ == io_range_refusal(start_io_number),
            r matches Ok(bytes) ==> bytes@.len() == count && forall|i: int|
                0 <= i < count ==> #[trigger] bytes@[i] == io_byte(self.io_states@, start_io_number + 8 * i),
    {
        let mut result: Vec<u8> = Vec::new();
        let mut i: usize = 0;
        while i < count
            invariant
                i <= count,
                start_io_number + 8 * i <= 0x1_0000,
                result@.len() == i,
                forall|j: int| 0 <= j < i ==> #[trigger] result@[j] == io_byte(self.io_states@, start_io_number + 8 * j),
            decreases count - i,
        {
            let mut byte_value: u8 = 0;
            let mut bit: usize = 0;
            while bit < 8
                invariant
                    i < count,
                    start_io_number + 8 * i <= 0x1_0000,
                    bit <= 8,
                    start_io_number + 8 * i + bit <= 0x1_0000,
                    byte_value == io_bits(self.io_states@, start_io_number + 8 * i, bit as nat),
                decreases 8 - bit,
            {
                let offset = i * 8 + bit;
                if offset > 0xffff {
                    return Err(text_with_number("I/O offset ", offset as u64, " exceeds u16::MAX"));
                }
                if start_io_number as usize + offset > 0xffff {
                    return Err(
                        text_with_two_numbers("I/O number ", start_io_number as u64, " + ", offset as u64, " overflows u16"),
                    );
                }
                let io_number = start_io_number + offset as u16;
                if self.get_io_state(io_number) {
                    byte_value = byte_value | (1u8 << (bit as u8));
                }
                bit = bit + 1;
            }
            result.push(byte_value);
            i = i + 1;
        }
        Ok(result)
    }

    /// Sets the signals from I/O number `start` on from the bits of
    /// `io_data` (bit `b` of byte `i` is signal `start + 8 i + b`). The
    /// signals up to I/O number 65535 are set; data that runs past it is
    /// refused.
    pub fn set_multiple_io_states(&mut self, start_io_number: u16, io_data: &[u8]) -> (r: Result<(), String>)
        ensures
            *final(self) == (MockState { io_states: final(self).io_states, ..*old(self) }),
            r is Ok <==> start_io_number + 8 * io_data@.len() <= 0x1_0000,
            r matches Err(m) ==> m@ == io_range_refusal(start_io_number),
            io_written(old(self).io_states@, final(self).io_states@, start_io_number as int,
                min_int(start_io_number + 8 * io_data@.len(), 0x1_0000), io_data@),
    {
        let ghost old_io = self.io_states@;
        let mut i: usize = 0;
        while i < io_data.len()
            invariant
                *self == (MockState { io_states: self.io_states, ..*old(self) }),
                old_io == old(self).io_states@,
                i <= io_data@.len(),
                start_io_number + 8 * i <= 0x1_0000,
                io_written(old_io, self.io_states@, start_io_number as int, start_io_number + 8 * i, io_data@),
            decreases io_data@.len() - i,
        {
            let ghost before = self.io_states@;
            let fits = set_io_byte(&mut self.io_states, start_io_number, i, io_data[i], Ghost(io_data@));
            proof {
                lemma_io_written_join(old_io, before, self.io_states@, start_io_number as int,
                    start_io_number + 8 * i, min_int(start_io_number + 8 * i + 8, 0x1_0000), io_data@);
            }
            if !fits {
                assert(8 * io_data@.len() >= 8 * i + 8) by (nonlinear_arith)
                    requires
                        i < io_data@.len(),
                ;
                if i * 8 > 0xffff {
                    return Err(text_with_number("I/O offset ", (i * 8) as u64, " exceeds u16::MAX"));
                }
                return Err(
                    text_with_two_numbers(
                        "I/O number ",
                        start_io_number as u64,
                        " + ",
                        (0x1_0000 - start_io_number as usize) as u64,
                        " overflows u16",
                    ),
                );
            }
            i = i + 1;
        }
        Ok(())
    }
}

/// The message that refuses I/O signals past I/O number 65535 from
/// `start` on: the first offset that does not fit 16 bits when `start` is 0,
/// else the first one that overflows it.
pub open spec fn io_range_refusal(start: u16) -> Seq<char> {
    if start == 0 {
        with_number("I/O offset "@, 0x1_0000, " exceeds u16::MAX"@)
    } else {
        with_two_numbers("I/O number "@, start as nat, " + "@, (0x1_0000 - start) as nat, " overflows u16"@)
    }
}

/// Sets the signals of byte `i` of the I/O data, stopping at I/O number
/// 65535; whether all eight fit.
fn set_io_byte(io: &mut HashMap<u16, bool>, start_io_number: u16, i: usize, byte: u8, Ghost(data): Ghost<Seq<u8>>) -> (r: bool)
    requires
        i < data.len(),
        byte == data[i as int],
        start_io_number + 8 * i <= 0x1_0000,
    ensures
        r == (start_io_number + 8 * i + 8 <= 0x1_0000),
        io_written_range(old(io)@, final(io)@, start_io_number as int, start_io_number + 8 * i,
            min_int(start_io_number + 8 * i + 8, 0x1_0000), data),
{
    let ghost old_io = io@;
    let ghost lo = start_io_number + 8 * i;
    let mut bit: usize = 0;
    while bit < 8
        invariant
            old_io == old(io)@,
            i < data.len(),
            byte == data[i as int],
            lo == start_io_number + 8 * i,
            bit <= 8,
            start_io_number + 8 * i + bit <= 0x1_0000,
            io_written_range(old_io, io@, start_io_number as int, lo, lo + bit, data),
        decreases 8 - bit,
    {
        if start_io_number as usize + i * 8 + bit > 0xffff {
            return false;
        }
        let offset = i * 8 + bit;
        let io_number = start_io_number + offset as u16;
        let state = (byte >> (bit as u8)) & 1u8 == 1u8;
        proof {
            let j = 8 * i + bit;
            assert(j / 8 == i && j % 8 == bit) by (nonlinear_arith)
                requires
                    j == 8 * i + bit,
                    bit < 8,
            ;
            assert(io_number - start_io_number == j);
            assert(data_bit(data, j) == state);
        }
        io.insert(io_number, state);
        bit = bit + 1;
    }
    true
}

/// Whether `new` is `old` with I/O numbers `lo` to `hi - 1` set from the
/// bits of `data` counted from I/O number `origin`, and every other signal
/// unchanged.
pub open spec fn io_written_range(
    old: Map<u16, bool>,
    new: Map<u16, bool>,
    origin: int,
    lo: int,
    hi: int,
    data: Seq<u8>,
) -> bool {
    forall|k: u16|
        #![trigger new.contains_key(k)]
        #![trigger old.contains_key(k)]
        if lo <= k < hi {
            new.contains_key(k) && new[k] == data_bit(data, k - origin)
        } else {
            new.contains_key(k) == old.contains_key(k) && (old.contains_key(k) ==> new[k] == old[k])
        }
}

/// Writing the signals up to `mid` and then those up to `hi` writes those up
/// to `hi`.
proof fn lemma_io_written_join(
    a: Map<u16, bool>,
    b: Map<u16, bool>,
    c: Map<u16, bool>,
    origin: int,
    mid: int,
    hi: int,
    data: Seq<u8>,
)
    requires
        origin <= mid <= hi,
        io_written(a, b, origin, mid, data),
        io_written_range(b, c, origin, mid, hi, data),
    ensures
        io_written(a, c, origin, hi, data),
{
    assert forall|k: u16| #![trigger c.contains_key(k)] #![trigger a.contains_key(k)] true implies (if origin <= k
        < hi {
        c.contains_key(k) && c[k] == data_bit(data, k - origin)
    } else {
        c.contains_key(k) == a.contains_key(k) && (a.contains_key(k) ==> c[k] == a[k])
    }) by {
        assert(b.contains_key(k) == b.contains_key(k));
    }
}

/// The smaller of two integers.
pub open spec fn min_int(a: int, b: int) -> int {
    if a < b {
        a
    } else {
        b
    }
}

/// The bytes cut or zero-padded to 16, as an array.
fn fixed_16(data: &[u8]) -> (r: [u8; 16])
    ensures
        r@ == fit_to_width(data@, 16),
{
    let mut value = [0u8; 16];
    let n = if data.len() < 16 {
        data.len()
    } else {
        16
    };
    let mut i: usize = 0;
    while i < 16
        invariant
            i <= 16,
            n <= 16,
            n <= data@.len(),
            n == (if data@.len() < 16 { data@.len() } else { 16 }),
            value@.len() == 16,
            forall|j: int| 0 <= j < i ==> #[trigger] value@[j] == (if j < n { data@[j] } else { 0u8 }),
            forall|j: int| i <= j < 16 ==> #[trigger] value@[j] == 0u8,
        decreases 16 - i,
    {
        if i < n {
            value.set(i, data[i]);
        }
        i = i + 1;
    }
    assert(value@ =~= fit_to_width(data@, 16));
    value
}

/// Whether `s` ends with `suffix`.
pub open spec fn text_ends_with(s: Seq<char>, suffix: Seq<char>) -> bool {
    suffix.len() <= s.len() && s.subrange(s.len() - suffix.len(), s.len() as int) == suffix
}

/// Whether `part` occurs in `s`.
pub open spec fn text_contains(s: Seq<char>, part: Seq<char>) -> bool {
    exists|i: int| 0 <= i && i + part.len() <= s.len() && #[trigger] s.subrange(i, i + part.len()) == part
}

/// `s` without leading and trailing `*`.
pub open spec fn trim_stars(s: Seq<char>) -> Seq<char>
    decreases s.len(),
{
    if s.len() > 0 && s[0] == '*' {
        trim_stars(s.drop_first())
    } else if s.len() > 0 && s.last() == '*' {
        trim_stars(s.drop_last())
    } else {
        s
    }
}

/// Whether a file name matches a listing pattern: `*` or an empty pattern
/// matches every name, `*.EXT` the names that end with `.EXT`, any other
/// pattern the names that contain it without its surrounding stars.
pub open spec fn name_matches(name: Seq<char>, pattern: Seq<char>) -> bool {
    if pattern == seq!['*'] || pattern.len() == 0 {
        true
    } else if pattern.len() >= 2 && pattern[0] == '*' && pattern[1] == '.' {
        text_ends_with(name, pattern.drop_first())
    } else {
        text_contains(name, trim_stars(pattern))
    }
}

/// The names of the stored files that match `pattern`, in storage order.
pub open spec fn matching_names(files: Seq<(Seq<char>, Seq<u8>)>, pattern: Seq<char>) -> Seq<Seq<char>>
    decreases files.len(),
{
    if files.len() == 0 {
        Seq::empty()
    } else {
        let rest = matching_names(files.drop_last(), pattern);
        if name_matches(files.last().0, pattern) {
            rest.push(files.last().0)
        } else {
            rest
        }
    }
}

/// Whether `i` is the first position of a file named `name`.
pub open spec fn first_file_named(files: Seq<(Seq<char>, Seq<u8>)>, name: Seq<char>, i: int) -> bool {
    &&& 0 <= i < files.len()
    &&& files[i].0 == name
    &&& forall|j: int| 0 <= j < i ==> files[j].0 != name
}

/// Whether no file is named `name`.
pub open spec fn no_file_named(files: Seq<(Seq<char>, Seq<u8>)>, name: Seq<char>) -> bool {
    forall|j: int| 0 <= j < files.len() ==> files[j].0 != name
}

/// The chars of a string.
fn chars_of(s: &str) -> (r: Vec<char>)
    ensures
        r@ == s@,
{
    let mut out: Vec<char> = Vec::new();
    for c in it: s.chars()
        invariant
            out@ == it.seq().take(it.index() as int),
    {
        out.push(c);
    }
    out
}

/// Whether two texts are equal.
fn same_text(a: &str, b: &String) -> (r: bool)
    ensures
        r == (a@ == b@),
{
    let owned = a.to_string();
    owned == *b
}

/// Whether `s` ends with `suffix`.
fn ends_with_chars(s: &Vec<char>, suffix: &Vec<char>) -> (r: bool)
    ensures
        r == text_ends_with(s@, suffix@),
{
    if suffix.len() > s.len() {
        return false;
    }
    let slen = s.len();
    let off = slen - suffix.len();
    let mut i: usize = 0;
    while i < suffix.len()
        invariant
            slen == s@.len(),
            off + suffix@.len() == s@.len(),
            i <= suffix@.len(),
            forall|j: int| 0 <= j < i ==> s@[off + j] == suffix@[j],
        decreases suffix@.len() - i,
    {
        if s[off + i] != suffix[i] {
            assert(s@.subrange(off as int, s@.len() as int)[i as int] != suffix@[i as int]);
            return false;
        }
        i = i + 1;
    }
    assert(s@.subrange(off as int, s@.len() as int) =~= suffix@);
    true
}

/// Whether `part` occurs in `s`.
fn contains_chars(s: &Vec<char>, part: &Vec<char>) -> (r: bool)
    ensures
        r == text_contains(s@, part@),
{
    if part.len() > s.len() {
        return false;
    }
    let slen = s.len();
    let last = slen - part.len();
    let mut i: usize = 0;
    while i <= last
        invariant
            slen == s@.len(),
            last + part@.len() == s@.len(),
            i <= last + 1,
            forall|k: int| 0 <= k < i ==> #[trigger] s@.subrange(k, k + part@.len()) != part@,
        decreases last + 1 - i,
    {
        let mut j: usize = 0;
        let mut same = true;
        while j < part.len()
            invariant
                i <= last,
                slen == s@.len(),
                last + part@.len() == s@.len(),
                j <= part@.len(),
                same == (forall|t: int| 0 <= t < j ==> s@[i + t] == part@[t]),
            decreases part@.len() - j,
        {
            if s[i + j] != part[j] {
                same = false;
            }
            j = j + 1;
        }
        if same {
            assert(s@.subrange(i as int, i + part@.len()) =~= part@);
            return true;
        }
        assert(exists|t: int| 0 <= t < part@.len() && s@[i + t] != part@[t]);
        let ghost t = choose|t: int| 0 <= t < part@.len() && s@[i + t] != part@[t];
        assert(s@.subrange(i as int, i + part@.len())[t] != part@[t]);
        if i == last {
            return false;
        }
        i = i + 1;
    }
    false
}

/// `s` without leading and trailing `*`.
fn trim_star_chars(s: &Vec<char>) -> (r: Vec<char>)
    ensures
        r@ == trim_stars(s@),
{
    let mut lo: usize = 0;
    let mut hi: usize = s.len();
    assert(s@.subrange(0, s@.len() as int) =~= s@);
    while lo < hi && (s[lo] == '*' || s[hi - 1] == '*')
        invariant
            lo <= hi <= s@.len(),
            trim_stars(s@) == trim_stars(s@.subrange(lo as int, hi as int)),
        decreases hi - lo,
    {
        let ghost cur = s@.subrange(lo as int, hi as int);
        if s[lo] == '*' {
            assert(cur.drop_first() =~= s@.subrange(lo + 1, hi as int));
            lo = lo + 1;
        } else {
            assert(cur.drop_last() =~= s@.subrange(lo as int, hi - 1));
            hi = hi - 1;
        }
    }
    copy_chars(s, lo, hi)
}

/// The chars `s[lo..hi]`.
fn copy_chars(s: &Vec<char>, lo: usize, hi: usize) -> (r: Vec<char>)
    requires
        lo <= hi <= s@.len(),
    ensures
        r@ == s@.subrange(lo as int, hi as int),
{
    let mut out: Vec<char> = Vec::new();
    let mut i = lo;
    while i < hi
        invariant
            lo <= i <= hi <= s@.len(),
            out@ == s@.subrange(lo as int, i as int),
        decreases hi - i,
    {
        out.push(s[i]);
        i = i + 1;
        assert(out@ =~= s@.subrange(lo as int, i as int));
    }
    out
}

/// Whether a file name matches a listing pattern.
fn matches_pattern(name: &String, pattern: &Vec<char>) -> (r: bool)
    ensures
        r == name_matches(name@, pattern@),
{
    let n = pattern.len();
    if n == 0 || (n == 1 && pattern[0] == '*') {
        assert(n == 1 ==> pattern@ =~= seq!['*']);
        return true;
    }
    assert(pattern@ != seq!['*']);
    let name_chars = chars_of(name.as_str());
    if n >= 2 && pattern[0] == '*' && pattern[1] == '.' {
        let ext = copy_chars(pattern, 1, n);
        assert(ext@ =~= pattern@.drop_first());
        ends_with_chars(&name_chars, &ext)
    } else {
        let core = trim_star_chars(pattern);
        contains_chars(&name_chars, &core)
    }
}

impl MockState {
    /// The position of the first file named `filename`, if any.
    fn find_file(&self, filename: &str) -> (r: Option<usize>)
        ensures
            match r {
                Some(i) => first_file_named(files_view(self.files@), filename@, i as int),
                None => no_file_named(files_view(self.files@), filename@),
            },
    {
        let mut i: usize = 0;
        while i < self.files.len()
            invariant
                i <= self.files@.len(),
                forall|j: int| 0 <= j < i ==> files_view(self.files@)[j].0 != filename@,
            decreases self.files@.len() - i,
        {
            if same_text(filename, &self.files[i].0) {
                return Some(i);
            }
            i = i + 1;
        }
        None
    }

    /// The names of the files that match `pattern`, in storage order.
    pub fn get_file_list(&self, pattern: &str) -> (r: Vec<String>)
        ensures
            r@.map_values(|s: String| s@) == matching_names(files_view(self.files@), pattern@),
    {
        let pattern_chars = chars_of(pattern);
        let mut names: Vec<String> = Vec::new();
        let mut i: usize = 0;
        while i < self.files.len()
            invariant
                i <= self.files@.len(),
                pattern_chars@ == pattern@,
                names@.map_values(|s: String| s@) == matching_names(files_view(self.files@).take(i as int), pattern@),
            decreases self.files@.len() - i,
        {
            let ghost before = files_view(self.files@).take(i as int);
            assert(files_view(self.files@).take(i + 1).drop_last() =~= before);
            if matches_pattern(&self.files[i].0, &pattern_chars) {
                names.push(self.files[i].0.clone());
                assert(names@.map_values(|s: String| s@) =~= matching_names(before, pattern@).push(
                    self.files@[i as int].0@,
                ));
            }
            i = i + 1;
        }
        assert(files_view(self.files@).take(i as int) =~= files_view(self.files@));
        names
    }

    /// Whether the state is well formed: no two stored files share a name.
    pub fn is_valid(&self) -> (r: bool)
        ensures
            r == self.valid(),
    {
        let n = self.files.len();
        let mut i: usize = 0;
        while i < n
            invariant
                n == self.files@.len(),
                i <= n,
                forall|a: int, b: int|
                    0 <= a < i && a < b < n ==> files_view(self.files@)[a].0 != files_view(self.files@)[b].0,
            decreases n - i,
        {
            let mut j: usize = i + 1;
            while j < n
                invariant
                    n == self.files@.len(),
                    i < n,
                    i < j <= n,
                    forall|a: int, b: int|
                        0 <= a < i && a < b < n ==> files_view(self.files@)[a].0 != files_view(self.files@)[b].0,
                    forall|b: int| i < b < j ==> files_view(self.files@)[i as int].0 != files_view(self.files@)[b].0,
                decreases n - j,
            {
                if same_text(self.files[i].0.as_str(), &self.files[j].0) {
                    assert(files_view(self.files@)[i as int].0 == files_view(self.files@)[j as int].0);
                    return false;
                }
                j = j + 1;
            }
            i = i + 1;
        }
        true
    }

    /// The content of the file named `filename`, if there is one.
    pub fn get_file(&self, filename: &str) -> (r: Option<&Vec<u8>>)
        ensures
            r matches Some(c) ==> exists|i: int|
                first_file_named(files_view(self.files@), filename@, i) && c@ == files_view(self.files@)[i].1,
            r is None <==> no_file_named(files_view(self.files@), filename@),
    {
        match self.find_file(filename) {
            Some(i) => Some(&self.files[i].1),
            None => None,
        }
    }

    /// Stores a file: replaces the content of the file with that name, or
    /// adds the file at the end.
    pub fn set_file(&mut self, filename: String, content: Vec<u8>)
        ensures
            *final(self) == (MockState { files: final(self).files, ..*old(self) }),
            forall|i: int|
                first_file_named(files_view(old(self).files@), filename@, i) ==> files_view(final(self).files@)
                    == files_view(old(self).files@).update(i, (filename@, content@)),
            no_file_named(files_view(old(self).files@), filename@) ==> files_view(final(self).files@)
                == files_view(old(self).files@).push((filename@, content@)),
            names_distinct(files_view(old(self).files@)) ==> names_distinct(files_view(final(self).files@)),
    {
        let ghost old_view = files_view(self.files@);
        match self.find_file(filename.as_str()) {
            Some(i) => {
                let ghost name_view = filename@;
                let ghost content_view = content@;
                self.files.set(i, (filename, content));
                assert(files_view(self.files@) =~= old_view.update(i as int, (name_view, content_view)));
            },
            None => {
                let ghost name_view = filename@;
                let ghost content_view = content@;
                self.files.push((filename, content));
                assert(files_view(self.files@) =~= old_view.push((name_view, content_view)));
            },
        }
    }

    /// Deletes the first file named `filename`; whether there was one.
    pub fn delete_file(&mut self, filename: &str) -> (r: bool)
        ensures
            *final(self) == (MockState { files: final(self).files, ..*old(self) }),
            r == !no_file_named(files_view(old(self).files@), filename@),
            forall|i: int|
                first_file_named(files_view(old(self).files@), filename@, i) ==> files_view(final(self).files@)
                    == files_view(old(self).files@).remove(i),
            no_file_named(files_view(old(self).files@), filename@) ==> final(self).files@ == old(self).files@,
            names_distinct(files_view(old(self).files@)) ==> names_distinct(files_view(final(self).files@)),
    {
        let ghost old_view = files_view(self.files@);
        match self.find_file(filename) {
            Some(i) => {
                self.files.remove(i);
                assert(files_view(self.files@) =~= old_view.remove(i as int));
                assert forall|a: int, b: int| 0 <= a < b < files_view(self.files@).len() && names_distinct(old_view)
                    implies files_view(self.files@)[a].0 != files_view(self.files@)[b].0 by {
                    let a2 = if a < i { a } else { a + 1 };
                    let b2 = if b < i { b } else { b + 1 };
                    assert(files_view(self.files@)[a] == old_view[a2]);
                    assert(files_view(self.files@)[b] == old_view[b2]);
                }
                true
            },
            None => false,
        }
    }
}

} // verus!
