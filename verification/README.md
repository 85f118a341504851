# vcli

The verified core of a command-line bridge to Cadence Virtuoso.

- `src/` is the library, verified with Verus: the capability model and the
  parsing of the capability list, the SKILL command text of the schematic
  operations (with the quoting of values), the RPC schema, the history
  records and their selection, and the decisions of the session commands
  and of the session heartbeat. Each function's contract states its result
  exactly; the `law_*` proof functions state the properties that hold across
  functions and inputs.
- `app/` holds what touches the outside world: the environment variable,
  the history and session files, the clock, the heartbeat thread and the
  JSON forms of the library's types.
- `tests/` runs the library on concrete inputs.
