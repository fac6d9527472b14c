//! What the simulated controller answers to a datagram: the decisions of
//! its receive loop, apart from the sockets.

use crate::error::ProtocolError;
use crate::message::{
    block_number_for_ack, parse_common_header, parse_request_sub_header, response_message_bytes, yerc,
    HsesRequestMessage, HsesResponseMessage,
};
use crate::mock::handlers::registry::{dispatched, request_overflows, CommandHandlerRegistry};
use crate::commands::cycle_mode::CycleMode;
use crate::encoding::TextEncoding;
use crate::mock::config::{is_new_config, MockConfig};
use crate::mock::state::MockState;
use crate::payload::alarm::Alarm;
use crate::payload::job::ExecutingJobInfo;
use crate::payload::position::Position;
use crate::payload::status::Status;
use std::collections::HashMap;
use vstd::prelude::*;

verus! {

/// The status and added status that answer a refused request: 1 for an
/// unknown command, 2 for an invalid service, 3 for an invalid attribute,
/// 0xff for any other error.
pub open spec fn error_status(e: ProtocolError) -> (u8, u16) {
    match e {
        ProtocolError::InvalidCommand => (0x01, 0x0001),
        ProtocolError::InvalidService => (0x02, 0x0002),
        ProtocolError::InvalidAttribute => (0x03, 0x0003),
        _ => (0xff, 0x00ff),
    }
}

/// The payload, status and added status of the reply to a handler's
/// result: the payload with status 0, or no payload with the error status.
pub open spec fn reply_parts(r: Result<Vec<u8>, ProtocolError>) -> (Seq<u8>, u8, u16) {
    match r {
        Ok(v) => (v@, 0, 0),
        Err(e) => (Seq::empty(), error_status(e).0, error_status(e).1),
    }
}

/// Whether `m` is the acknowledgement of `request` with this status and
/// payload: same division and request id, the service plus 0x80.
pub open spec fn acknowledges(m: HsesResponseMessage, request: HsesRequestMessage, status: u8, added_status: u16, payload: Seq<u8>) -> bool {
    &&& m.header.magic@ == yerc()
    &&& m.header.header_size == 0x20
    &&& m.header.payload_size == payload.len() as u16
    &&& m.header.reserved_magic == 3
    &&& m.header.division == request.header.division
    &&& m.header.ack == 1
    &&& m.header.request_id == request.header.request_id
    &&& m.header.block_number == block_number_for_ack(1)
    &&& m.header.reserved@ == Seq::new(8, |i: int| 0x39u8)
    &&& m.sub_header.service == request.sub_header.service + 0x80
    &&& m.sub_header.status == status
    &&& m.sub_header.added_status_size == 2
    &&& m.sub_header.padding1 == 0
    &&& m.sub_header.added_status == added_status
    &&& m.sub_header.padding2 == 0
    &&& m.payload@ == payload
}

/// Whether `out` is the encoded reply to `request` for the handler result
/// `r`; `None` only where the payload is too large to frame.
pub open spec fn reply_framed(request: HsesRequestMessage, r: Result<Vec<u8>, ProtocolError>, out: Option<Vec<u8>>) -> bool {
    let (payload, status, added_status) = reply_parts(r);
    match out {
        Some(bytes) => exists|m: HsesResponseMessage|
            acknowledges(m, request, status, added_status, payload) && bytes@ == #[trigger] response_message_bytes(m),
        None => payload.len() + 32 > isize::MAX,
    }
}

/// Whether answering the request in `state` would overflow an integer (see
/// `request_overflows`).
pub fn would_overflow(message: &HsesRequestMessage, state: &MockState) -> (r: bool)
    ensures
        r == request_overflows(*state, *message),
{
    let h = &message.sub_header;
    if h.command != 0x73 || !(1 <= h.instance && h.instance <= 6) || h.attribute > 4 {
        return false;
    }
    if !((h.service == 0x0e && h.attribute == 4) || h.service == 0x01) {
        return false;
    }
    match &state.executing_job {
        Some(j) => j.speed_override_value > u32::MAX / 100,
        None => false,
    }
}

/// The request a datagram holds, if it is one: at least 32 bytes that
/// decode as a request.
pub fn accept_datagram(data: &[u8]) -> (r: Option<HsesRequestMessage>)
    ensures
        data@.len() < 32 || data@.take(4) != yerc() ==> r is None,
        data@.len() >= 32 && data@.take(4) == yerc() ==> (r matches Some(m) && m.header == parse_common_header(data@)
            && m.sub_header == parse_request_sub_header(data@.skip(24)) && m.payload@ == data@.skip(32)),
{
    if data.len() < 32 {
        return None;
    }
    match HsesRequestMessage::decode(data) {
        Ok(m) => Some(m),
        Err(_) => None,
    }
}

/// Answers a request: the handler of its command updates the state and
/// gives the payload, or an error that becomes a status; the reply
/// acknowledges the request with the service plus 0x80. `None` where the
/// payload is too large to frame.
pub fn respond(message: &HsesRequestMessage, state: &mut MockState, handlers: &CommandHandlerRegistry) -> (out: Option<Vec<u8>>)
    requires
        old(state).valid(),
        message.sub_header.service < 0x80,
        !request_overflows(*old(state), *message),
    ensures
        final(state).valid(),
        exists|r: Result<Vec<u8>, ProtocolError>|
            #[trigger] dispatched(*old(state), *final(state), *message, r) && reply_framed(*message, r, out),
{
    let result = handlers.handle(message, state);
    let ghost r = result;
    let (payload, status, added_status): (Vec<u8>, u8, u16) = match result {
        Ok(payload) => (payload, 0x00, 0x0000),
        Err(ProtocolError::InvalidCommand) => (Vec::new(), 0x01, 0x0001),
        Err(ProtocolError::InvalidService) => (Vec::new(), 0x02, 0x0002),
        Err(ProtocolError::InvalidAttribute) => (Vec::new(), 0x03, 0x0003),
        Err(_) => (Vec::new(), 0xff, 0x00ff),
    };
    assert(reply_parts(r) == (payload@, status, added_status));
    if payload.len() > (isize::MAX as usize) - 32 {
        return None;
    }
    let response = HsesResponseMessage::new(
        message.header.division,
        0x01,
        message.header.request_id,
        message.sub_header.service,
        status,
        added_status,
        payload,
    );
    let encoded = response.encode();
    let bytes = crate::message::bytes_mut_to_vec(&encoded);
    assert(acknowledges(response, *message, status, added_status, reply_parts(r).0));
    assert(bytes@ == response_message_bytes(response));
    Some(bytes)
}

/// Builds the configuration of a simulated controller step by step.
pub struct MockServerBuilder {
    config: MockConfig,
}

impl View for MockServerBuilder {
    type V = MockConfig;

    /// The configuration built so far.
    closed spec fn view(&self) -> MockConfig {
        self.config
    }
}

impl MockServerBuilder {
    /// A builder that starts from the default configuration.
    pub fn new() -> (r: Self)
        ensures
            is_new_config(r@, "127.0.0.1"@, crate::constants::ROBOT_CONTROL_PORT, crate::constants::FILE_CONTROL_PORT),
    {
        Self { config: MockConfig::default() }
    }

    /// Listens on `host`.
    pub fn host(self, host: String) -> (r: Self)
        ensures
            r@ == (MockConfig { host: r@.host, ..self@ }),
            r@.host@ == host@,
    {
        let mut b = self;
        b.config.host = host;
        b
    }

    /// Listens for robot control on `port`.
    pub fn robot_port(self, port: u16) -> (r: Self)
        ensures
            r@ == (MockConfig { robot_port: port, ..self@ }),
    {
        let mut b = self;
        b.config.robot_port = port;
        b
    }

    /// Listens for file control on `port`.
    pub fn file_port(self, port: u16) -> (r: Self)
        ensures
            r@ == (MockConfig { file_port: port, ..self@ }),
    {
        let mut b = self;
        b.config.file_port = port;
        b
    }

    /// Uses `encoding` for text.
    pub fn text_encoding(self, encoding: TextEncoding) -> (r: Self)
        ensures
            r@ == (MockConfig { text_encoding: encoding, ..self@ }),
    {
        let mut b = self;
        b.config.text_encoding = encoding;
        b
    }

    /// Adds a current alarm.
    pub fn with_alarm(self, alarm: Alarm) -> (r: Self)
        ensures
            r@ == (MockConfig { alarms: r@.alarms, ..self@ }),
            r@.alarms@ == self@.alarms@.push(alarm),
    {
        let mut b = self;
        b.config.alarms.push(alarm);
        b
    }

    /// Adds an alarm to the history.
    pub fn with_alarm_history(self, alarm: Alarm) -> (r: Self)
        ensures
            r@ == (MockConfig { alarm_history: r@.alarm_history, ..self@ }),
            r@.alarm_history@ == self@.alarm_history@.push(alarm),
    {
        let mut b = self;
        b.config.alarm_history.push(alarm);
        b
    }

    /// Sets an I/O signal.
    pub fn with_io_state(self, io_number: u16, state: bool) -> (r: Self)
        ensures
            r@ == (MockConfig { io_states: r@.io_states, ..self@ }),
            r@.io_states@ == self@.io_states@.insert(io_number, state),
    {
        let mut b = self;
        b.config.io_states.insert(io_number, state);
        b
    }

    /// Starts at `position`.
    pub fn with_position(self, position: Position) -> (r: Self)
        ensures
            r@ == (MockConfig { default_position: position, ..self@ }),
    {
        let mut b = self;
        b.config.default_position = position;
        b
    }

    /// Starts with `status`.
    pub fn with_status(self, status: Status) -> (r: Self)
        ensures
            r@ == (MockConfig { default_status: status, ..self@ }),
    {
        let mut b = self;
        b.config.default_status = status;
        b
    }

    /// Starts executing `job`.
    pub fn with_executing_job(self, job: ExecutingJobInfo) -> (r: Self)
        ensures
            r@ == (MockConfig { executing_job: Some(job), ..self@ }),
    {
        let mut b = self;
        b.config.executing_job = Some(job);
        b
    }

    /// Starts with these registers.
    pub fn with_registers(self, registers: HashMap<u16, i16>) -> (r: Self)
        ensures
            r@ == (MockConfig { registers, ..self@ }),
    {
        let mut b = self;
        b.config.registers = registers;
        b
    }

    /// Starts with these variables.
    pub fn with_variables(self, variables: HashMap<u16, Vec<u8>>) -> (r: Self)
        ensures
            r@ == (MockConfig { variables, ..self@ }),
    {
        let mut b = self;
        b.config.variables = variables;
        b
    }

    /// Starts in cycle mode `mode`.
    pub fn with_cycle_mode(self, mode: CycleMode) -> (r: Self)
        ensures
            r@ == (MockConfig { cycle_mode: mode, ..self@ }),
    {
        let mut b = self;
        b.config.cycle_mode = mode;
        b
    }

    /// The configuration built.
    pub fn into_config(self) -> (r: MockConfig)
        ensures
            r == self@,
    {
        self.config
    }
}

impl Default for MockServerBuilder {
    /// The builder of `MockServerBuilder::new`.
    fn default() -> (r: Self)
        ensures
            is_new_config(r@, "127.0.0.1"@, crate::constants::ROBOT_CONTROL_PORT, crate::constants::FILE_CONTROL_PORT),
    {
        Self::new()
    }
}

} // verus!
