# shared

Telemetry link between a micro:bit (nRF52833) and a host dashboard, verified with Verus.

A sample (`Telemetry`) travels over UART as
`COBS{ version(1) | postcard(Telemetry) | crc16_le(2) } 0x00`.

- `src/` — the verified library:
  - `frame` — building and checking frames (`encode_frame`, `decode_frame`, `wire_frame`, `check_body`);
  - `codec` — the trusted bridge to the postcard, crc and cobs crates;
  - `accumulator` — reassembly of frames from the byte stream, with resynchronisation;
  - `serial` — one read byte to one event, and the stream laws (delivery, resync, overflow);
  - `sensor`, `display` — the firmware's accelerometer conversion and LED row scan;
  - `probe` — the decisions of a board flash through probe-rs.
- `app/` — the host program: serial port, HTTP/SSE dashboard, probe-rs processes,
  and the hardware smoke check (`hil-smoke [PORT]`).
- `tests/` — scenario tests run against the real outside crates.
