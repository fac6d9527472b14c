use moto_hses::commands::{
    AlarmReset, Command, CycleMode, CycleModeSwitchingCommand, DeleteFile, HoldServoControl, JobSelectCommand,
    JobSelectType, JobStartCommand, ReadVariable, WriteIo, WriteRegister, WriteVariable,
    ReadMultipleRegisters, ReceiveFile, SendFile, WriteMultipleIo, WriteMultipleRegisters, WriteMultipleVariables,
};
use moto_hses::payload::position::{
    CartesianPosition, Configuration, ExtendedConfiguration, Position, PulsePosition,
};
use moto_hses::encoding::TextEncoding;
use moto_hses::message::{HsesRequestMessage, HsesResponseMessage};
use moto_hses::mock::server::{accept_datagram, respond};
use moto_hses::mock::handlers::io::PluralIoHandler;
use moto_hses::mock::handlers::job::SelectCycleHandler;
use moto_hses::mock::handlers::register::PluralRegisterHandler;
use moto_hses::mock::handlers::variable::{
    PluralByteVarHandler, PluralDoubleVarHandler, PluralIntegerVarHandler, PluralRealVarHandler,
};
use moto_hses::mock::{CommandHandler, CommandHandlerRegistry, MockState};
use std::marker::PhantomData;

fn request(command: u16, instance: u16, attribute: u8, service: u8, payload: Vec<u8>) -> HsesRequestMessage {
    HsesRequestMessage::new(1, 0, 7, command, instance, attribute, service, payload)
}

fn handle(state: &mut MockState, message: &HsesRequestMessage) -> Result<Vec<u8>, String> {
    CommandHandlerRegistry::new().handle(message, state).map_err(|e| format!("{e:?}"))
}

fn handle_plural(state: &mut MockState, message: &HsesRequestMessage) -> Result<Vec<u8>, String> {
    let r = match message.sub_header.command {
        0x300 => PluralIoHandler.handle(message, state),
        0x301 => PluralRegisterHandler.handle(message, state),
        0x302 => PluralByteVarHandler.handle(message, state),
        0x303 => PluralIntegerVarHandler.handle(message, state),
        0x304 => PluralDoubleVarHandler.handle(message, state),
        0x305 => PluralRealVarHandler.handle(message, state),
        other => panic!("no plural handler for {other:#x}"),
    };
    r.map_err(|e| format!("{e:?}"))
}

fn carried<C: Command>(cmd: &C) -> HsesRequestMessage {
    request(C::command_id(), cmd.instance(), cmd.attribute(), cmd.service(), cmd.serialize().unwrap())
}

fn reply(state: &mut MockState, message: &HsesRequestMessage) -> HsesResponseMessage {
    let bytes = respond(message, state, &CommandHandlerRegistry::new()).unwrap();
    HsesResponseMessage::decode(&bytes).unwrap()
}

#[test]
fn status_read_is_acknowledged_with_service_plus_0x80() {
    let mut state = MockState::default();
    let response = reply(&mut state, &request(0x72, 1, 1, 0x0e, vec![]));
    assert_eq!(response.header.ack, 1);
    assert_eq!(response.header.request_id, 7);
    assert_eq!(response.sub_header.service, 0x8e);
    assert_eq!(response.sub_header.status, 0);
    let word = state.status.data1.to_word();
    assert_eq!(response.payload, vec![word as u8, (word >> 8) as u8, 0, 0, 0, 0, 0, 0]);
}

#[test]
fn unknown_command_is_refused_with_status_1_and_no_payload() {
    let mut state = MockState::default();
    let before = format!("{state:?}");
    let response = reply(&mut state, &request(0x9999, 1, 1, 0x0e, vec![]));
    assert_eq!(response.header.ack, 1);
    assert_eq!(response.sub_header.service, 0x8e);
    assert_eq!(response.sub_header.status, 0x01);
    assert_eq!(response.sub_header.added_status, 0x0001);
    assert!(response.payload.is_empty());
    assert_eq!(format!("{state:?}"), before);
}

#[test]
fn invalid_service_and_attribute_and_other_errors_get_their_status() {
    let mut state = MockState::default();
    let response = reply(&mut state, &request(0x7a, 1, 1, 0x01, vec![]));
    assert_eq!((response.sub_header.status, response.sub_header.added_status), (0x02, 0x0002));
    let response = reply(&mut state, &request(0x84, 2, 0, 0x10, vec![1, 0, 0, 0]));
    assert_eq!((response.sub_header.status, response.sub_header.added_status), (0x03, 0x0003));
    let response = reply(&mut state, &request(0x7a, 100, 1, 0x0e, vec![]));
    assert_eq!((response.sub_header.status, response.sub_header.added_status), (0xff, 0x00ff));
    assert!(response.payload.is_empty());
}

#[test]
fn byte_variable_reads_back_its_first_byte() {
    let mut state = MockState::default();
    assert_eq!(handle(&mut state, &request(0x7a, 5, 1, 0x10, vec![42, 9])), Ok(vec![]));
    assert_eq!(handle(&mut state, &request(0x7a, 5, 1, 0x0e, vec![])), Ok(vec![42]));
    assert_eq!(handle(&mut state, &request(0x7a, 6, 1, 0x0e, vec![])), Ok(vec![0]));
}

#[test]
fn integer_and_double_variables_read_back_whole_or_as_zeros() {
    let mut state = MockState::default();
    handle(&mut state, &request(0x7b, 3, 1, 0x10, vec![0x34, 0x12])).unwrap();
    assert_eq!(handle(&mut state, &request(0x7b, 3, 1, 0x0e, vec![])), Ok(vec![0x34, 0x12, 0, 0]));
    handle(&mut state, &request(0x7b, 4, 1, 0x10, vec![7])).unwrap();
    assert_eq!(handle(&mut state, &request(0x7b, 4, 1, 0x0e, vec![])), Ok(vec![0, 0, 0, 0]));
    handle(&mut state, &request(0x7c, 8, 1, 0x10, vec![1, 2, 3, 4, 5])).unwrap();
    assert_eq!(handle(&mut state, &request(0x7c, 8, 1, 0x0e, vec![])), Ok(vec![1, 2, 3, 4]));
}

#[test]
fn real_variable_reads_back_zero_padded() {
    let mut state = MockState::default();
    handle(&mut state, &request(0x7d, 2, 1, 0x10, vec![0xAA, 0xBB])).unwrap();
    assert_eq!(handle(&mut state, &request(0x7d, 2, 1, 0x0e, vec![])), Ok(vec![0xAA, 0xBB, 0, 0]));
}

#[test]
fn string_variable_reads_back_padded_to_16_bytes() {
    let mut state = MockState::default();
    handle(&mut state, &request(0x7e, 1, 1, 0x10, b"HELLO\0\0".to_vec())).unwrap();
    let mut expected = b"HELLO".to_vec();
    expected.resize(16, 0);
    assert_eq!(handle(&mut state, &request(0x7e, 1, 1, 0x0e, vec![])), Ok(expected));
    assert_eq!(state.get_variable(1), Some(&b"HELLO".to_vec()));
}

#[test]
fn register_reads_back_its_value_and_two_zero_bytes() {
    let mut state = MockState::default();
    handle(&mut state, &request(0x79, 10, 1, 0x10, vec![0x10, 0x27])).unwrap();
    assert_eq!(state.get_register(10), 10000);
    assert_eq!(handle(&mut state, &request(0x79, 10, 1, 0x0e, vec![])), Ok(vec![0x10, 0x27, 0, 0]));
}

#[test]
fn io_signal_reads_back_as_one_or_zero_in_four_bytes() {
    let mut state = MockState::default();
    handle(&mut state, &request(0x78, 2701, 1, 0x10, vec![5])).unwrap();
    assert_eq!(handle(&mut state, &request(0x78, 2701, 1, 0x0e, vec![])), Ok(vec![1, 0, 0, 0]));
    handle(&mut state, &request(0x78, 2701, 1, 0x10, vec![0])).unwrap();
    assert_eq!(handle(&mut state, &request(0x78, 2701, 1, 0x0e, vec![])), Ok(vec![0, 0, 0, 0]));
    assert!(handle(&mut state, &request(0x78, 0, 1, 0x0e, vec![])).unwrap_err().contains("InvalidCommand"));
}

#[test]
fn plural_writes_read_back_as_the_bytes_written() {
    let mut state = MockState::default();
    let cases: Vec<(u16, u16, Vec<u8>)> = vec![
        (0x301, 20, vec![2, 0, 0, 0, 0x01, 0x02, 0xFF, 0xFF]),
        (0x302, 30, vec![2, 0, 0, 0, 7, 8]),
        (0x303, 40, vec![2, 0, 0, 0, 1, 0, 0, 0x80]),
        (0x304, 50, vec![1, 0, 0, 0, 0x78, 0x56, 0x34, 0x12]),
        (0x305, 60, vec![1, 0, 0, 0, 0x00, 0x00, 0x20, 0x41]),
        (0x300, 2701, vec![2, 0, 0, 0, 0b1010_1010, 0b0000_0001]),
    ];
    for (command, start, payload) in cases {
        let written = handle_plural(&mut state, &request(command, start, 0, 0x34, payload.clone()));
        assert_eq!(written, Ok(payload[0..4].to_vec()));
        let read = handle_plural(&mut state, &request(command, start, 0, 0x33, payload[0..4].to_vec()));
        assert_eq!(read, Ok(payload), "command {command:#x}");
    }
}

#[test]
fn file_is_fetched_by_name_after_storing_and_not_after_deleting() {
    let mut state = MockState::default();
    handle(&mut state, &request(0x00, 0, 0, 0x15, b"JOB1.JBI\0LINE1".to_vec())).unwrap();
    assert_eq!(state.get_file("JOB1.JBI"), Some(&b"LINE1".to_vec()));
    let fetched = handle(&mut state, &request(0x00, 0, 0, 0x16, b"JOB1.JBI\0".to_vec()));
    assert_eq!(fetched, Ok(b"JOB1.JBI\0LINE1".to_vec()));
    handle(&mut state, &request(0x00, 0, 0, 0x15, b"JOB1.JBI\0LINE2".to_vec())).unwrap();
    let fetched = handle(&mut state, &request(0x00, 0, 0, 0x16, b"JOB1.JBI\0".to_vec()));
    assert_eq!(fetched, Ok(b"JOB1.JBI\0LINE2".to_vec()));
    handle(&mut state, &request(0x00, 0, 0, 0x09, b"JOB1.JBI\0".to_vec())).unwrap();
    assert_eq!(handle(&mut state, &request(0x00, 0, 0, 0x16, b"JOB1.JBI\0".to_vec())), Ok(vec![]));
}

#[test]
fn file_listing_answers_matching_names_each_ended_by_nul() {
    let mut state = MockState::default();
    handle(&mut state, &request(0x00, 0, 0, 0x15, b"A.JBI\0x".to_vec())).unwrap();
    handle(&mut state, &request(0x00, 0, 0, 0x15, b"B.DAT\0y".to_vec())).unwrap();
    let listed = handle(&mut state, &request(0x00, 0, 0, 0x32, b"*.JBI".to_vec())).unwrap();
    let text = String::from_utf8(listed).unwrap();
    assert!(text.contains("A.JBI\0"));
    assert!(!text.contains("B.DAT"));
}

#[test]
fn unknown_file_service_is_invalid() {
    let mut state = MockState::default();
    let r = handle(&mut state, &request(0x00, 0, 0, 0x7f, vec![]));
    assert!(r.unwrap_err().contains("InvalidService"));
}

#[test]
fn write_multiple_registers_reaches_the_plural_handler() {
    let mut state = MockState::default();
    let cmd = WriteMultipleRegisters::new(100, vec![-1, 2, 300]).unwrap();
    assert_eq!(handle_plural(&mut state, &carried(&cmd)), Ok(vec![3, 0, 0, 0]));
    assert_eq!(state.get_multiple_registers(100, 3), vec![-1, 2, 300]);
    let read = ReadMultipleRegisters::new(100, 3).unwrap();
    assert_eq!(
        handle_plural(&mut state, &carried(&read)),
        Ok(vec![3, 0, 0, 0, 0xFF, 0xFF, 2, 0, 0x2C, 0x01])
    );
}

#[test]
fn write_multiple_variables_reach_the_plural_handlers() {
    let mut state = MockState::default();
    let bytes = WriteMultipleVariables::<u8>::new(10, vec![1, 2]).unwrap();
    handle_plural(&mut state, &carried(&bytes)).unwrap();
    assert_eq!(state.get_multiple_byte_variables(10, 2), vec![1, 2]);
    let ints = WriteMultipleVariables::<i16>::new(20, vec![-5, 6]).unwrap();
    handle_plural(&mut state, &carried(&ints)).unwrap();
    assert_eq!(state.get_multiple_integer_variables(20, 2), vec![-5, 6]);
    let doubles = WriteMultipleVariables::<i32>::new(30, vec![70000]).unwrap();
    handle_plural(&mut state, &carried(&doubles)).unwrap();
    assert_eq!(state.get_multiple_double_variables(30, 1), vec![70000]);
}

#[test]
fn write_multiple_io_reaches_the_plural_handler() {
    let mut state = MockState::default();
    let cmd = WriteMultipleIo::new(2701, vec![0b0000_0101, 0b1000_0000]).unwrap();
    assert_eq!(handle_plural(&mut state, &carried(&cmd)), Ok(vec![2, 0, 0, 0]));
    assert!(state.get_io_state(2701));
    assert!(!state.get_io_state(2702));
    assert!(state.get_io_state(2703));
    assert!(state.get_io_state(2716));
    assert_eq!(state.get_multiple_io_states(2701, 2), Ok(vec![0b0000_0101, 0b1000_0000]));
}

#[test]
fn hold_servo_control_switches_the_controller() {
    let mut state = MockState::default();
    handle(&mut state, &carried(&HoldServoControl::servo_off())).unwrap();
    assert!(!state.servo_on);
    assert!(!state.status.data2.servo_on);
    handle(&mut state, &carried(&HoldServoControl::servo_on())).unwrap();
    assert!(state.servo_on);
    assert!(state.status.data2.servo_on);
    handle(&mut state, &carried(&HoldServoControl::hold_on())).unwrap();
    assert!(state.hold_state);
    assert!(state.status.data2.command_hold);
    assert!(!state.status.data1.running);
    handle(&mut state, &carried(&HoldServoControl::hlock_on())).unwrap();
    assert!(state.is_hlock_enabled());
    handle(&mut state, &carried(&HoldServoControl::hlock_off())).unwrap();
    assert!(!state.is_hlock_enabled());
}

#[test]
fn cycle_mode_switch_reaches_the_controller() {
    let mut state = MockState::default();
    let cmd = CycleModeSwitchingCommand::new(CycleMode::Step);
    assert_eq!(handle(&mut state, &carried(&cmd)), Ok(vec![]));
    assert_eq!(state.get_cycle_mode(), CycleMode::Step);
    let bad = request(0x84, 2, 1, 0x10, vec![9, 0, 0, 0]);
    assert!(handle(&mut state, &bad).unwrap_err().contains("InvalidAttribute"));
    assert_eq!(state.get_cycle_mode(), CycleMode::Step);
}

#[test]
fn alarm_reset_clears_the_alarms_and_alarm_reads_answer_zeros() {
    let mut state = MockState::default();
    assert_eq!(state.alarms.len(), 4);
    let first = handle(&mut state, &request(0x70, 1, 0, 0x0e, vec![])).unwrap();
    assert_eq!(first.len(), 60);
    assert_eq!(&first[0..4], &1001u32.to_le_bytes());
    assert_eq!(handle(&mut state, &request(0x70, 1, 1, 0x0e, vec![])), Ok(vec![0; 60]));
    handle(&mut state, &carried(&AlarmReset::reset())).unwrap();
    assert!(state.alarms.is_empty());
    assert!(!state.status.data2.alarm);
    assert_eq!(handle(&mut state, &request(0x70, 1, 0, 0x0e, vec![])), Ok(vec![0; 60]));
    assert_eq!(handle(&mut state, &request(0x71, 1, 1, 0x0e, vec![])), Ok(vec![0; 60]));
}

#[test]
fn error_cancel_clears_only_the_error_flag() {
    let mut state = MockState::default();
    state.status.data2.error = true;
    let alarms = state.alarms.len();
    handle(&mut state, &carried(&AlarmReset::cancel())).unwrap();
    assert!(!state.status.data2.error);
    assert_eq!(state.alarms.len(), alarms);
}

#[test]
fn datagrams_are_accepted_only_as_whole_requests() {
    assert!(accept_datagram(&[0u8; 10]).is_none());
    assert!(accept_datagram(&[0u8; 40]).is_none());
    let message = request(0x7a, 3, 1, 0x0e, vec![9, 9]);
    let bytes = message.encode();
    let accepted = accept_datagram(&bytes).unwrap();
    assert_eq!(accepted.sub_header.command, 0x7a);
    assert_eq!(accepted.sub_header.instance, 3);
    assert_eq!(accepted.payload, vec![9, 9]);
}

#[test]
fn position_variable_reads_back_the_position_written() {
    let mut state = MockState::default();
    let pulse = Position::Pulse(PulsePosition::new(vec![1, -2, 3, -4, 5, -6, 7, -8]));
    let bytes = pulse.serialize().unwrap();
    assert_eq!(bytes.len(), 52);
    handle(&mut state, &request(0x7f, 0, 0, 0x10, bytes.clone())).unwrap();
    assert_eq!(state.position, pulse);
    assert_eq!(handle(&mut state, &request(0x7f, 0, 0, 0x0e, vec![])), Ok(bytes.clone()));
    assert_eq!(handle(&mut state, &request(0x75, 1, 0, 0x01, vec![])), Ok(bytes));

    let cartesian = Position::Cartesian(CartesianPosition::new(
        1000,
        2000,
        3000,
        -10,
        20,
        -30,
        4,
        5,
        Configuration::from_raw(0x11),
        ExtendedConfiguration::from_raw(0x02),
    ));
    let mut bytes = cartesian.serialize().unwrap();
    let expected = bytes.clone();
    bytes.extend_from_slice(&[0u8; 8]);
    handle(&mut state, &request(0x7f, 0, 0, 0x10, bytes)).unwrap();
    assert_eq!(state.position, cartesian);
    assert_eq!(handle(&mut state, &request(0x75, 1, 0, 0x01, vec![])), Ok(expected));
}

#[test]
fn job_start_sets_the_running_flag() {
    let mut state = MockState::default();
    state.status.data1.running = false;
    assert_eq!(handle(&mut state, &carried(&JobStartCommand::new())), Ok(vec![]));
    assert!(state.status.data1.running);
    let bad = request(0x86, 1, 1, 0x10, vec![2, 0, 0, 0]);
    assert!(handle(&mut state, &bad).unwrap_err().contains("InvalidMessage"));
}

#[test]
fn executing_job_information_is_read_per_attribute() {
    let mut state = MockState::default();
    let name = handle(&mut state, &request(0x73, 1, 1, 0x0e, vec![])).unwrap();
    assert_eq!(name.len(), 32);
    assert!(name.starts_with(b"TEST.JOB"));
    assert_eq!(handle(&mut state, &request(0x73, 1, 2, 0x0e, vec![])), Ok(vec![2, 0, 0, 0]));
    assert_eq!(handle(&mut state, &request(0x73, 1, 4, 0x0e, vec![])), Ok(10000u32.to_le_bytes().to_vec()));
    let all = handle(&mut state, &request(0x73, 1, 0, 0x01, vec![])).unwrap();
    assert_eq!(all.len(), 44);
    assert!(handle(&mut state, &request(0x73, 7, 1, 0x0e, vec![])).unwrap_err().contains("InvalidInstance"));
    assert!(handle(&mut state, &request(0x73, 1, 0, 0x0e, vec![])).unwrap_err().contains("InvalidAttribute"));
}

#[test]
fn job_select_records_the_job_and_line() {
    let mut state = MockState::default();
    let mut payload = b"WELD.JOB".to_vec();
    payload.resize(32, 0);
    payload.extend_from_slice(&25u32.to_le_bytes());
    assert_eq!(handle(&mut state, &request(0x87, 1, 1, 0x02, payload)), Ok(vec![]));
    let selected = state.get_selected_job().unwrap();
    assert_eq!(selected.job_name, "WELD.JOB");
    assert_eq!(selected.line_number, 25);
    assert_eq!(selected.select_type, 1);
}

#[test]
fn job_select_payload_is_recorded_with_attribute_1() {
    let mut state = MockState::default();
    let cmd = JobSelectCommand::new(JobSelectType::MasterTask2, "PICK.JOB".to_string(), 42, TextEncoding::Utf8);
    let message = request(0x87, cmd.instance(), 1, cmd.service(), cmd.serialize().unwrap());
    assert_eq!(handle(&mut state, &message), Ok(vec![]));
    let selected = state.get_selected_job().unwrap();
    assert_eq!(selected.job_name, "PICK.JOB");
    assert_eq!(selected.line_number, 42);
    assert_eq!(selected.select_type, 12);
}

#[test]
fn job_select_command_as_serialized_is_refused_for_its_attribute() {
    let mut state = MockState::default();
    let cmd = JobSelectCommand::new(JobSelectType::InExecution, "PICK.JOB".to_string(), 1, TextEncoding::Utf8);
    assert_eq!(cmd.attribute(), 0);
    let r = handle(&mut state, &carried(&cmd));
    assert!(r.unwrap_err().contains("InvalidAttribute"));
    assert!(state.get_selected_job().is_none());
}

#[test]
fn write_register_and_write_io_reach_the_controller() {
    let mut state = MockState::default();
    handle(&mut state, &carried(&WriteRegister::new(700, -300))).unwrap();
    assert_eq!(state.get_register(700), -300);
    handle(&mut state, &carried(&WriteIo::new(1001, 1))).unwrap();
    assert!(state.get_io_state(1001));
    handle(&mut state, &carried(&WriteIo::new(1001, 0))).unwrap();
    assert!(!state.get_io_state(1001));
}

#[test]
fn variables_written_by_the_client_read_back_as_their_bytes() {
    let mut state = MockState::default();
    handle(&mut state, &carried(&WriteVariable::<u8> { index: 9, value: 200 })).unwrap();
    let read = ReadVariable::<u8> { index: 9, _phantom: PhantomData };
    assert_eq!(handle(&mut state, &carried(&read)), Ok(vec![200]));
    handle(&mut state, &carried(&WriteVariable::<i16> { index: 9, value: -2 })).unwrap();
    let read = ReadVariable::<i16> { index: 9, _phantom: PhantomData };
    assert_eq!(handle(&mut state, &carried(&read)), Ok(vec![0xFE, 0xFF, 0, 0]));
    handle(&mut state, &carried(&WriteVariable::<i32> { index: 9, value: 0x0102_0304 })).unwrap();
    let read = ReadVariable::<i32> { index: 9, _phantom: PhantomData };
    assert_eq!(handle(&mut state, &carried(&read)), Ok(vec![4, 3, 2, 1]));
}

#[test]
fn file_sent_by_the_client_is_stored_but_its_fetch_and_delete_name_no_file() {
    let mut state = MockState::default();
    let send = SendFile::new("JOB1.JBI".to_string(), b"LINE1".to_vec(), TextEncoding::ShiftJis);
    assert_eq!(handle(&mut state, &carried(&send)), Ok(vec![]));
    assert_eq!(state.get_file("JOB1.JBI"), Some(&b"LINE1".to_vec()));
    let fetch = ReceiveFile::new("JOB1.JBI".to_string(), TextEncoding::Utf8);
    assert_eq!(fetch.serialize().unwrap(), b"JOB1.JBI".to_vec());
    assert_eq!(handle(&mut state, &carried(&fetch)), Ok(vec![]));
    let delete = DeleteFile::new("JOB1.JBI".to_string(), TextEncoding::Utf8);
    assert_eq!(handle(&mut state, &carried(&delete)), Ok(vec![]));
    assert_eq!(state.get_file("JOB1.JBI"), Some(&b"LINE1".to_vec()));
}

#[test]
fn cycle_selection_is_acknowledged_only_with_set_single() {
    let mut state = MockState::default();
    let before = state.get_cycle_mode();
    assert_eq!(SelectCycleHandler.handle(&request(0x84, 2, 1, 0x10, vec![1, 0, 0, 0]), &mut state).unwrap(), Vec::<u8>::new());
    assert_eq!(state.get_cycle_mode(), before);
    let r = SelectCycleHandler.handle(&request(0x84, 2, 1, 0x0e, vec![]), &mut state);
    assert!(matches!(r, Err(moto_hses::error::ProtocolError::InvalidService)));
}

#[test]
fn plural_variable_refusals_name_the_request() {
    let mut state = MockState::default();
    let r = handle_plural(&mut state, &request(0x302, 10, 0, 0x33, vec![3, 0, 0, 0]));
    assert!(r.unwrap_err().contains("Invalid count: 3 for start_variable 10 (must be 1-474 and multiple of 2)"));
    let r = handle_plural(&mut state, &request(0x303, 5, 0, 0x33, vec![1]));
    assert!(r.unwrap_err().contains("Payload too short: 1 bytes for start_variable 5 (need at least 4 bytes)"));
    let r = handle_plural(&mut state, &request(0x304, 0, 0, 0x34, vec![1, 0, 0, 0, 9]));
    assert!(r.unwrap_err().contains("Invalid payload length: got 5 bytes, expected 8"));
    let r = handle(&mut state, &request(0x7a, 100, 1, 0x0e, vec![]));
    assert!(r.unwrap_err().contains("Invalid variable index: 100 (valid range: 0-99)"));
}

#[test]
fn io_reads_past_the_last_signal_are_refused_with_the_overflow() {
    let state = MockState::default();
    match state.get_multiple_io_states(65535, 1) {
        Err(m) => assert_eq!(m, "I/O number 65535 + 1 overflows u16"),
        Ok(_) => panic!("read past 65535"),
    }
    let mut state = MockState::default();
    match state.set_multiple_io_states(65530, &[0xff]) {
        Err(m) => assert_eq!(m, "I/O number 65530 + 6 overflows u16"),
        Ok(_) => panic!("write past 65535"),
    }
}

#[test]
fn integer_variable_and_io_reads_answer_four_payload_bytes() {
    let mut state = MockState::default();
    let reply = reply(&mut state, &request(0x7b, 0, 1, 0x0e, vec![]));
    assert_eq!(reply.header.ack, 1);
    assert_eq!(reply.sub_header.service, 0x8e);
    assert_eq!(reply.payload.len(), 4);
    let reply = self::reply(&mut state, &request(0x78, 1, 1, 0x0e, vec![]));
    assert_eq!(reply.sub_header.service, 0x8e);
    assert_eq!(reply.payload, vec![1, 0, 0, 0]);
}

#[test]
fn plural_commands_are_unknown_to_the_controller() {
    let mut state = MockState::default();
    for command in 0x300u16..=0x305 {
        let response = reply(&mut state, &request(command, 0, 0, 0x33, vec![2, 0, 0, 0]));
        assert_eq!((response.sub_header.status, response.sub_header.added_status), (0x01, 0x0001));
        assert!(response.payload.is_empty());
    }
}
