//! The configuration a simulated controller starts from.

use crate::commands::alarm::AlarmCategory;
use crate::commands::cycle_mode::CycleMode;
use crate::constants::{FILE_CONTROL_PORT, ROBOT_CONTROL_PORT};
use crate::encoding::TextEncoding;
use crate::error::{decimal_text, host_port_text};
use crate::payload::alarm::Alarm;
use crate::payload::job::ExecutingJobInfo;
use crate::payload::position::{Position, PulsePosition};
use crate::payload::status::{Status, StatusData1, StatusData2};
use crate::mock::state::{files_view, history_capacity, min_int, test_history, test_job_file, MockState};
use crate::payload::alarm::test_alarms::are_test_alarms;
use std::collections::HashMap;
use vstd::prelude::*;

verus! {

/// How a simulated controller is set up: where it listens and the state it
/// starts with.
#[derive(Debug, Clone)]
pub struct MockConfig {
    pub host: String,
    pub robot_port: u16,
    pub file_port: u16,
    pub text_encoding: TextEncoding,
    pub default_status: Status,
    pub default_position: Position,
    pub registers: HashMap<u16, i16>,
    pub variables: HashMap<u16, Vec<u8>>,
    pub io_states: HashMap<u16, bool>,
    pub alarms: Vec<Alarm>,
    pub alarm_history: Vec<Alarm>,
    pub executing_job: Option<ExecutingJobInfo>,
    pub cycle_mode: CycleMode,
}

/// The status a configuration starts with: continuous play, servo on, no
/// alarm.
pub open spec fn config_status() -> Status {
    Status {
        data1: StatusData1 {
            step: false,
            one_cycle: false,
            continuous: true,
            running: false,
            speed_limited: false,
            teach: false,
            play: true,
            remote: false,
        },
        data2: StatusData2 {
            teach_pendant_hold: false,
            external_hold: false,
            command_hold: false,
            alarm: false,
            error: false,
            servo_on: true,
        },
    }
}

/// Whether `c` is the configuration `MockConfig::new` makes for `host` and
/// the two ports: UTF-8 text, the status of `config_status`, an all-zero
/// pulse position of 8 axes, registers 0-4 holding 0, 100, 200, 300 and 400,
/// D variables 0-2 holding 1, 100 and the bits of 10.0, input 1 on and
/// output 1001 off, no alarms, job TEST.JOB at line 2 step 1 and 100 %,
/// continuous cycle.
pub open spec fn is_new_config(c: MockConfig, host: Seq<char>, robot_port: u16, file_port: u16) -> bool {
    &&& c.host@ == host
    &&& c.robot_port == robot_port
    &&& c.file_port == file_port
    &&& c.text_encoding == TextEncoding::Utf8
    &&& c.default_status == config_status()
    &&& c.default_position matches Position::Pulse(p) && p.joints@ == seq![0i32, 0, 0, 0, 0, 0, 0, 0]
    &&& c.registers@ == map![0u16 => 0i16, 1u16 => 100i16, 2u16 => 200i16, 3u16 => 300i16, 4u16 => 400i16]
    &&& c.variables@.dom() == set![0u16, 1u16, 2u16]
    &&& c.variables@[0]@ == seq![0x01u8, 0x00, 0x00, 0x00]
    &&& c.variables@[1]@ == seq![0x64u8, 0x00, 0x00, 0x00]
    &&& c.variables@[2]@ == seq![0x00u8, 0x00, 0x20, 0x41]
    &&& c.io_states@ == map![1u16 => true, 1001u16 => false]
    &&& c.alarms@.len() == 0
    &&& c.alarm_history@.len() == 0
    &&& c.executing_job matches Some(j) && j.job_name@ == "TEST.JOB"@ && j.line_number == 2 && j.step_number == 1 && j.speed_override_value == 100
    &&& c.cycle_mode == CycleMode::Continuous
}

impl MockConfig {
    /// A configuration for `host` and the two ports: UTF-8 text, the status
    /// of `config_status`, an all-zero pulse position of 8 axes, registers
    /// 0-4 holding 0, 100, 200, 300 and 400, D variables 0-2 holding 1, 100
    /// and the bits of 10.0, input 1 on and output 1001 off, no alarms, job
    /// TEST.JOB at line 2 step 1 and 100 %, continuous cycle.
    pub fn new(host: String, robot_port: u16, file_port: u16) -> (r: Self)
        ensures
            is_new_config(r, host@, robot_port, file_port),
    {
        let mut registers: HashMap<u16, i16> = HashMap::new();
        registers.insert(0, 0);
        registers.insert(1, 100);
        registers.insert(2, 200);
        registers.insert(3, 300);
        registers.insert(4, 400);
        let mut variables: HashMap<u16, Vec<u8>> = HashMap::new();
        variables.insert(0, vec![0x01, 0x00, 0x00, 0x00]);
        variables.insert(1, vec![0x64, 0x00, 0x00, 0x00]);
        variables.insert(2, vec![0x00, 0x00, 0x20, 0x41]);
        let mut io_states: HashMap<u16, bool> = HashMap::new();
        io_states.insert(1, true);
        io_states.insert(1001, false);
        let r = Self {
            host,
            robot_port,
            file_port,
            text_encoding: TextEncoding::Utf8,
            default_status: Status::new(
                StatusData1 {
                    step: false,
                    one_cycle: false,
                    continuous: true,
                    running: false,
                    speed_limited: false,
                    teach: false,
                    play: true,
                    remote: false,
                },
                StatusData2 {
                    teach_pendant_hold: false,
                    external_hold: false,
                    command_hold: false,
                    alarm: false,
                    error: false,
                    servo_on: true,
                },
            ),
            default_position: Position::Pulse(PulsePosition::new(vec![0, 0, 0, 0, 0, 0, 0, 0])),
            registers,
            variables,
            io_states,
            alarms: Vec::new(),
            alarm_history: Vec::new(),
            executing_job: Some(ExecutingJobInfo::new("TEST.JOB".to_string(), 2, 1, 100)),
            cycle_mode: CycleMode::Continuous,
        };
        assert(r.registers@ =~= map![0u16 => 0i16, 1u16 => 100i16, 2u16 => 200i16, 3u16 => 300i16, 4u16 => 400i16]);
        assert(r.variables@.dom() =~= set![0u16, 1u16, 2u16]);
        assert(r.io_states@ =~= map![1u16 => true, 1001u16 => false]);
        r
    }

    /// `host:robot_port`.
    pub fn robot_addr_string(&self) -> (r: String)
        ensures
            r@ == self.host@ + ":"@ + decimal_text(self.robot_port as nat),
    {
        host_port_text(self.host.as_str(), self.robot_port)
    }

    /// `host:file_port`.
    pub fn file_addr_string(&self) -> (r: String)
        ensures
            r@ == self.host@ + ":"@ + decimal_text(self.file_port as nat),
    {
        host_port_text(self.host.as_str(), self.file_port)
    }

    /// The state a controller with this configuration starts with: the test
    /// state with the configured encoding, status, position, registers,
    /// variables and cycle mode; the configured job when there is one; the
    /// configured alarms when there are any; and the configured history
    /// alarms appended to the major failures (up to 100 in all). The
    /// configured I/O states are not applied.
    pub fn initial_state(self) -> (r: MockState)
        ensures
            r.text_encoding == self.text_encoding,
            r.status == self.default_status,
            r.position == self.default_position,
            r.registers@ == self.registers@,
            r.variables@ == self.variables@,
            r.cycle_mode == self.cycle_mode,
            r.io_states@ == map![1u16 => true, 1001u16 => false],
            self.executing_job is Some ==> r.executing_job == self.executing_job,
            self.executing_job is None ==> (r.executing_job matches Some(j) && j.job_name@ == "TEST.JOB"@
                && j.line_number == 2 && j.step_number == 1 && j.speed_override_value == 100),
            self.alarms@.len() > 0 ==> r.alarms@ == self.alarms@,
            self.alarms@.len() == 0 ==> are_test_alarms(r.alarms@),
            test_history(r.alarm_history),
            r.alarm_history.category(AlarmCategory::MajorFailure).len() == min_int(
                3 + self.alarm_history@.len() as int,
                history_capacity(),
            ),
            r.alarm_history.category(AlarmCategory::MajorFailure).skip(3) == self.alarm_history@.take(
                r.alarm_history.category(AlarmCategory::MajorFailure).len() - 3,
            ),
            r.selected_job is None,
            r.servo_on && !r.hold_state && !r.hlock_state,
            files_view(r.files@) == seq![("TEST.JBI"@, test_job_file())],
            r.valid(),
    {
        let mut state = MockState::default();
        state.text_encoding = self.text_encoding;
        state.status = self.default_status;
        state.position = self.default_position;
        state.registers = self.registers;
        state.variables = self.variables;
        state.cycle_mode = self.cycle_mode;
        match self.executing_job {
            Some(job) => {
                state.executing_job = Some(job);
            },
            None => {},
        }
        if self.alarms.len() > 0 {
            state.alarms = self.alarms;
        }
        let mut history = self.alarm_history;
        let ghost all = history@;
        let total = history.len();
        let ghost fixed = state;
        let ghost base = state.alarm_history.category(AlarmCategory::MajorFailure);
        let mut i: usize = 0;
        while history.len() > 0
            invariant
                i + history@.len() == all.len(),
                all.len() == total,
                history@ == all.skip(i as int),
                state == (MockState { alarm_history: state.alarm_history, ..fixed }),
                base.len() == 3,
                base == fixed.alarm_history.category(AlarmCategory::MajorFailure),
                state.alarm_history.category(AlarmCategory::MajorFailure).take(3) == base,
                forall|c: AlarmCategory|
                    #![trigger state.alarm_history.category(c)]
                    c != AlarmCategory::MajorFailure ==> state.alarm_history.category(c)
                        == fixed.alarm_history.category(c),
                state.alarm_history.category(AlarmCategory::MajorFailure).len() == min_int(3 + i as int, 100),
                state.alarm_history.category(AlarmCategory::MajorFailure).skip(3) == all.take(
                    state.alarm_history.category(AlarmCategory::MajorFailure).len() - 3,
                ),
            decreases history@.len(),
        {
            let ghost before = state.alarm_history.category(AlarmCategory::MajorFailure);
            let alarm = history.remove(0);
            assert(alarm == all[i as int]);
            assert(history@ =~= all.skip(i + 1));
            state.alarm_history.add_alarm(AlarmCategory::MajorFailure, alarm);
            proof {
                let after = state.alarm_history.category(AlarmCategory::MajorFailure);
                if before.len() < 100 {
                    assert(after.skip(3) =~= before.skip(3).push(all[i as int]));
                    assert(all.take(i + 1) =~= all.take(i as int).push(all[i as int]));
                    assert(after.take(3) =~= before.take(3));
                }
            }
            i = i + 1;
        }
        proof {
            let major = state.alarm_history.category(AlarmCategory::MajorFailure);
            assert(major[0] == major.take(3)[0] && major[1] == major.take(3)[1] && major[2] == major.take(3)[2]);
        }
        state
    }
}

impl Default for MockConfig {
    /// A configuration for 127.0.0.1 and the standard ports.
    fn default() -> (r: Self)
        ensures
            is_new_config(r, "127.0.0.1"@, ROBOT_CONTROL_PORT, FILE_CONTROL_PORT),
    {
        Self::new("127.0.0.1".to_string(), ROBOT_CONTROL_PORT, FILE_CONTROL_PORT)
    }
}

} // verus!
