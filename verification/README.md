# delta_kernel_core

The core logic of a kernel for Delta tables, written in Verus: executable Rust whose contracts are proved.

## Layout

- `src/`: the library. Every function in it is verified.
  - `struct_patch`, `struct_patch_laws`, `struct_patch_conflicts`, `struct_patch_order`: sparse patches of
    structs, as expressions and as schemas, which edits of them conflict, and which can change places.
  - `crc`, `crc_replay`, `replay_rows`, `replay_schema`, `log_segment`: version checksums, and how the commits
    of a log change them when they are replayed from the newest to the oldest. `crc_replay_laws`,
    `crc_composition` and `crc_trust` hold what is true of every replay.
  - `history`: searches by timestamp in the history of a table.
  - `columns`: columns of plain values.
  - `deduplicator`: filtering the file actions of checkpoints.
  - `metrics`: events, their spans, and counting what is read.
  - `plans`, `engine`: declarative plans and what carries them out.
  - `ffi`: what crosses the border to an engine in another language.
  - `unity_catalog`: the properties of tables that a catalog manages.
  - `schema`, `expressions`, `scalars`, `actions`, `error`, `location`, `string_map`, `text`: what the others
    are made of.
  - `test_support`: schemas and checks for tests.
- `tests/`: tests of the library.
- `app/`: ordinary Rust around the library: the C interface, Arrow arrays, replaying Arrow batches, tracing
  spans, the clock and the serialised form of patches.

## What is trusted

The contracts of the items marked `external_body` or `assume_specification` are believed, not proved. They
are the calls into `url` (`location.rs`), `bytes` (`ffi/iter.rs`), `uuid` (`metrics/id.rs`) and `serde_json`
(`unity_catalog.rs`), the debug formats of durations and strings (`metrics/events.rs`), `String::push`
(`text.rs`) and `str::from_utf8` (`ffi/slices.rs`). Each says in its comment what it claims.
