# chmlfrp

The logic of the ChmlFrp launcher as a verified library: frpc
configurations, local tunnel files in INI form, the running-process
records, the sign-in flow, the frpc download, the log masking and the
terminal launcher's screen state and key handling. Verus proves every
contract in `src/`, except those of the few small wrappers around outside
crates (hashing, hex, URL encoding, ANSI stripping, the clock, paths), which
are trusted. `check_frpc_exists` has no contract: its answer comes from the
disk.

- `src/` — the library, verified with Verus.
- `tests/` — tests of the library on concrete values.
- `app/` — a command-line launcher around the library: files, HTTP,
  processes and system services.
