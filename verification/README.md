# frontend_rust

The observation side of the typing pass's Rust-interop cases, verified with Verus.

- `src/text.rs` — string building with exact contracts: decimal rendering, the
  leading identifier of a `Debug` rendering, line joining.
- `src/oracle.rs` — what the Rust oracle was asked, and which items it offered.
- `src/harness.rs` — a case, its expectation, and what it observed
  (`CompileFailure`, `CaseOutcome` and the questions asked of it).
- `src/kinds.rs` — kinds and names of the typed program, described the way
  source names them (`describe_kind`, `describe_args`).
- `src/program.rs` — function bodies, the calls `main` makes, and the owned
  `Callee` facts about each.
- `src/compilation.rs` — how a test sets up a typing-pass compilation.
- `src/invocation.rs` — the rustc command lines a case runs.
- `src/laws.rs` — properties that span the functions above.
- `app/lib.rs` — file and process I/O: resources, fixture paths, the sysroot,
  building a fixture's dependency crate.
