# luanti

A Luanti (Minetest) protocol server core written in Verus: the wire
encodings, packet framing and split reassembly, the opcode tables, the
session table and handshake state machine, SRP bookkeeping, an in-memory
authentication store, and the datagram dispatcher. Verus proves the
functions in `src/` against their contracts, except the small wrappers
around outside crates described below, whose contracts are trusted.

Layout:

- `src/` — the verified library (`luanti`).
- `tests/` — executable tests of the library.
- `app/` — the UDP server around it: sockets, the clock, command-line
  and environment handling, the SQLite and PostgreSQL backends, and the
  floating-point fields of the wire format.

Hash functions, base64, big-number arithmetic, randomness and compression
come from outside crates through small wrappers whose contracts are
trusted; their doc comments say what is assumed of each.
