# lan-speedtest

A client that measures a local network over a WebSocket: round trip times first,
then the rate of a download, then that of an upload.

* `src/` holds what the client decides, verified with Verus. `run.rs` states the
  course of a test run as a state machine and `session.rs` carries it out;
  `protocol.rs` and `json.rs` are the messages, `options.rs` the options,
  `size.rs` the sizes among them, `stats.rs` the figures. `laws.rs` proves what holds
  of every run.
* `app/` is the program around it: arguments, connection, clocks and report.
* `tests/` runs the library.

Averages and rates are fractions in the library; they become floating point
numbers only where they are sent or printed.
