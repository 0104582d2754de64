# martini

The verified core of MaRTIni, a Manhattan-mobility radio network simulator with
pluggable handoff protocols.

`src/` is the library, verified with Verus. It holds everything of the simulator
that is decided rather than measured:

- `config` — grid geometry and validation, traffic profiles, radio technologies, terrain kinds;
- `sim::engine` — applying handoff decisions, SLA edges, mobile identities, per-cell
  connection lists, base lookup by identifier, the end-of-tick population refill,
  event records and the bounded event log;
- `sim::base` — when a base's channels are all occupied;
- `sim::history` — bounded histories and the law that they keep the latest entries;
- `sim::scenario` — scheduled events, the stable sort by tick, and lookup by tick;
- `sim::protocol*` — handoff decisions and the built-in protocols' decision rules
  (threshold, conditional and soft handoff, given the outcome of each power
  comparison), protocol names, the declarative rule language (words, conditions,
  actions, first matching rule);
- `sim::replay`, `ui::replay_panel` — recording (and the law that a recording holds
  exactly the frames recorded since it started, in order) and replay stepping;
- `sim::ab_test` — A/B configuration and run seeds;
- `app_state` — the start / stop / reset lifecycle;
- `ui::event_log` — the event log's filter, colours, icons and row text;
- `text` — decimal rendering shared by all messages.

`app/` is the egui program around it: windows and panels, the background engine
thread, file I/O (TOML sessions, scenarios and rule files, JSON recordings, CSV
exports), and all floating-point radio arithmetic (propagation, SINR, capacity,
latency, terrain generation, the protocols' power comparisons, statistics).

`tests/` exercises the library on concrete values.
