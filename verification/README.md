# PathToBonjwa

A StarCraft: Brood War replay (`.rep`) analyzer. The replay logic is a Verus
library whose functions carry `requires`/`ensures` contracts proved by Verus;
the desktop application around it is ordinary Rust.

## Layout

- `src/` — the verified library
  - `parser/` — replay sections (chunked, zlib-compressed), the header and its
    player slots, the command stream, matchups, unit names and costs
  - `analytics/` — action counts (APM/EAPM), build orders, hotkey use, idle
    periods, CSV field escaping
  - `library.rs` — win/loss detection for a named player, newest-first listing,
    date formatting
  - `openbw/`, `simulation.rs` — game-state snapshots from the OpenBW simulator
    and the curves and army compositions drawn from them
  - `text.rs`, `bytes.rs` — string building and little-endian fields
- `app/` — the eframe/egui desktop application: file dialogs, drag and drop,
  folder scanning, settings on disk, floating-point statistics, the simulator's
  C interface
- `tests/` — tests of the library

Public proof functions state properties that span calls or inputs (for
instance that EAPM never exceeds APM, that two build-order entries of one unit
type lie at least the de-duplication window apart, and that a two-player result
is mirrored for the opponent).
