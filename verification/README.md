# pinepods_api

The rules of a podcast server, verified with Verus: its admin command line,
password hashes, the layout of its Redis/Valkey store, its notifications, and the
registry and protocol through which a user's devices see and control each other.

- `src/` is the verified library. Nothing in it talks to a database, a store or a
  network: what has to be asked of them is handed out as a value (a command, a
  request, an effect), and the answers are taken as arguments. Where an exchange
  takes several turns, a run (`PlaybackRun`, `CreateUserRun`, `DevicesRequest`,
  `DeviceScan`, `Fanout`) holds what is known so far.
- `app/` is the server around it, in ordinary Rust.
- `tests/` runs the library with the outside crates linked.

Positions, durations and speeds are floating-point numbers. The rules only carry
them along, as a type parameter `N`; the server uses `f64`.

Each module's laws are public proof functions whose names start with `law_`.
