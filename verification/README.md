# mc_tunnel

A reverse tunnel that makes a Minecraft server on a home machine reachable
through a public VPS, without opening ports on the home router.

- `src/` is the library, verified with Verus: the handshake bytes
  (`protocol`), the dashboard statistics (`stats`), what they say after
  any sequence of updates (`history`, with sequence helpers in `seqs`),
  their accounting around each bridged connection (`bridge`), the settings and their defaults
  (`config`), and the decisions of both sides as state machines (`vps`,
  `client`). Their contracts and the laws they keep are stated in the code.
- `app/main.rs` is the program: it reads the settings file, runs the tokio
  sockets and timers, serves `GET /api/stats` with axum, and asks the
  library what to do at every step.
- `tests/` runs the library on concrete values.
