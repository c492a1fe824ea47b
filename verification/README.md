# reclaw_core

The core of the Reclaw gateway: its decisions, parsers, state transitions and replies, written in
Rust with contracts that Verus proves.

- `src/` is the library. `text`, `lists`, `slug`, `paths`, `json`, `sorted_map`, `hash` and `ids`
  hold what the rest is built from. `security` decides who is admitted and how often they may fail.
  `application` holds the configuration, the schedules and what the gateway knows of its clients and
  jobs. `protocol` and `rpc` hold frames, policy, routes and the methods. `interfaces` holds what
  HTTP endpoints, hooks, channels and WebSocket connections take and answer.
- `app/` is the program around the library: arguments, files, sockets, processes and the store. It
  reads and writes what the library decides on.
- `tests/` runs the library on given values.

Functions whose names begin with `law_` state what holds of several functions together.

A few calls into std and into `serde_json`, `chrono`, `subtle` and `uuid` stand behind small wrapper
functions. The comment above each of them says what is claimed of the call.
