# Teiryo

Teiryo watches how much of an LLM subscription's quota is used up. A daemon
polls the provider and keeps the readings in SQLite; a terminal client draws
them and says how long the headroom will last.

`src/` is the library both are built on, verified with Verus:

- `domain`, `ids`, `time`, `amount`: readings, identifiers, instants, and
  numbers as their bits, ordered exactly.
- `rollover`: when one reading after another shows that a window has reset.
- `metrics`: a window's pace, its recent stretch, and its boundaries.
- `storage`: what is asked of the database, how rows are read, and how a
  history is thinned without losing its peaks.
- `protocol`, `client`, `session`: frames, the handshake, what reaches the
  daemon, and what the event loop does next.
- `adapter` and the subscription adapter beside it: the stored login, the
  verdict on a probe, and the usage payload.
- `app`, `ui`: the client's state, what each key and gesture does, and the
  lines it draws.

`app/` is ordinary Rust around it: sockets, HTTP, the database connection, the
terminal, and floating-point arithmetic. `tests/` runs the library.
