# ntp-toolbox

A desktop tool that checks whether an NTP server answers, and how far the local
clock is from it, and that can run a small NTP server of its own for tests.

`src/` is the verified core, in Verus:

- `bytes`, `timestamp`, `address`, `packet`: NTP time values and packets, their
  wire format, and the reply to a request
- `worker`, `server`: the threads of the server, as state machines
- `probe`, `civil`, `millis`: the result of a check, the times and the offset it
  shows
- `checker`, `view`: the state behind the window, and what it shows
- `text`: searching, trimming and decimal numbers

`app/` is the program around it: sockets, threads, the clock, the network client
and the window. `tests/` holds the tests of the core.

The core trusts two outside crates: `byteorder` to read and write big-endian
integers (`src/bytes.rs`), and `chrono` to show a date and time
(`src/civil.rs`). The doc comment of each such function says what is trusted.
