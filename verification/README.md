# ocpp-rs

Building blocks of an OCPP 1.6J charge point simulator and central system,
written in Verus: the logic is in `src/` and proved against its contracts;
`app/` is the command-line simulator that does the terminal, socket and clock
work around it.

Modules of the library:

- `json`, `message`, `types`, `client::utils`: OCPP-J frames and messages,
  read and written through `serde_json`.
- `validation`, `config`, `numbers`: message validation and the configuration
  key rules: integers as `i32` reads them, decimals compared as doubles from
  their bit pattern (the caller parses them; the library holds no float).
- `cp_error`, `simulator_error`, `csms_error`, `transport`, `context`: error
  taxonomies, their texts and conversions, and error context.
- `state`, `auth`, `server`: the central system's state (kept in `dashmap`
  maps), authentication, and its admission and health decisions.
- `client`, `cli`, `scenarios`: the simulator's connection state machine, its
  replies to the central system, and scenario runs.
- `connectors`: the simulated charge point's connectors — cable, transactions,
  availability, metering — and the StatusNotification, StartTransaction and
  StopTransaction frames each action sends.
- `text`, `time`, `ids`: decimal texts, RFC 3339 timestamps (through
  `chrono`) and UUIDs (through `uuid`).

`tests/` exercises the library on concrete values; `app/` holds `main`, the
socket driver of the WebSocket client, and the serde copies of the scenario
types.
