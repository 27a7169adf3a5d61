# ferrite

Session types for Rust: a session is typed by the protocol it offers and the context of
channels it uses, and the Rust type checker holds each session to its protocol.

The library under `src/` holds what can be stated and proved of the session machinery:

- `row`: n-ary sums over rows of types (`Sum`, `SumRow`), with splitting and joining of
  sums, lifting and elimination field by field, and prisms that put an element at a fixed
  position and take it out again, with their laws.
- `fix`: recursive types as fixed points (`Fix`, `fix`, `unfix`).
- `context`: contexts of channel endpoints, appending contexts, and lenses that take the
  endpoint out of one slot and put another in, with the lens laws.
- `protocol`, `shared`: the protocol types and the substitution of recursion points.
- `session`: sessions, and the injection of sessions into sums of sessions.
- `peano`: type-level natural numbers that name positions.

`app/` holds the asynchronous runtime: each session combinator there does the channel I/O
of async-std and calls the library for the context work.
