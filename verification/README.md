# sidecar

Socket activation and admin server start-up for a sidecar process, verified with
[Verus](https://github.com/verus-lang/verus).

A service manager can hand listening sockets to the process it starts. It announces them in
three environment variables: `LISTEN_PID` names the process, `LISTEN_FDS` counts the
descriptors, and `LISTEN_FDNAMES` gives their names, separated by colons. The library reads
the announcement, decides what has to be checked of each descriptor and in which order, and
collects the listeners by name. It does no input or output itself: it asks for one thing at a
time and goes on with the reply.

## Layout

- `src/text.rs`, `src/decimal.rs`: separated lists and decimal numbers
- `src/activation_name.rs`: the names of the supported listeners
- `src/activation_env.rs`: the environment variables and what they announce
- `src/handover.rs`: the steps by which descriptors are taken over
- `src/activation.rs`: entry points, and what comes of a takeover
- `src/activation_sockets.rs`: the listeners taken over
- `src/admin_server.rs`: where the admin server listens, its limits, and how a run ends
- `src/error.rs`: errors and their messages
- `app/`: the system calls and the HTTP server around the library
- `tests/`: tests on concrete values
