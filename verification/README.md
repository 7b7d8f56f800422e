# sqlink-shim-codegen

Generates a SQLite extension crate that bridges a DataFission wasm
shim (PostGIS, MobilityDB, …) into SQLite as native functions,
aggregates, types, operators and virtual tables.

The library (`src/`) computes every generated file from a bridge plan
and is verified with Verus: each emitter's contract states its output
text exactly over the plan.

- `src/plan.rs` — the plan: what the interface database records about
  each shim extension.
- `src/text.rs` — string building with exact specifications (decimal
  rendering, padding, sanitising, sequence concatenation).
- `src/emit/` — the native-dylib crate: `Cargo.toml`, the twelve Rust
  sources and `README.md`; `templates.rs` holds their fixed text.
- `src/wasm_target/` — the wasm-component target: crate name, WIT world
  choice, WIT source-directory decision, scalar dispatch table and
  match-arm bodies.
- `src/laws/` — properties across emitters and calls: every Rust file
  carries the header, every published function and listed item
  appears in its file, the shim variable agrees between files, the
  function files read only the flat function lists (`flatten.rs`),
  `src/lib.rs` declares exactly the modules written (`mod.rs`,
  `modules.rs`), each match arm has the layout of its shape
  (`arms.rs`), calls its import once and returns only its own
  `SqlValue` variant (`calls.rs`), and maps an error once or not at all
  (`map_err.rs`). Each law states the names and texts it holds for.
- `app/` — the command-line driver: reads the interface database,
  writes the files, runs `rustfmt`, copies WIT trees.
