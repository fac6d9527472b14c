# moto_hses

A verified library for Yaskawa's High-Speed Ethernet Server (HSES) protocol,
and a simulated robot controller that answers it. Every function of the
library carries a contract that Verus proves.

## Layout

- `src/wire.rs`: little-endian integers and fixed-width text fields.
- `src/message.rs`: the common header, the request and response sub-headers
  and whole messages, with their encodings and decodings.
- `src/commands/`: the client's requests (alarms, status, job, position, I/O,
  registers, variables, servo, cycle mode, files), each stating its command
  number, sub-header fields and payload.
- `src/payload/`: the data types the controller sends back (alarms, status,
  job information, positions, variables) and how they are read.
- `src/encoding.rs`, `src/encoding_utils.rs`: UTF-8 and Shift_JIS text, through
  `encoding_rs`.
- `src/mock/`: the simulated controller: its state, one handler per command,
  the dispatch table, the reply to a datagram, and its configuration.
  `src/mock/laws.rs` states what holds across requests: a read answers what an
  earlier write stored, a command reaches the controller as it was meant.
- `app/`: the UDP server around the simulated controller (sockets, tasks,
  logging, argument handling).
- `tests/`: tests of the library on concrete values.
