# boson_valence_identity

A Valence-backed execution context factory for Boson task dispatch, verified with Verus.

Building a dispatch context builds a `Valence` through the host's `ValenceFactory`, stages it
in a store under a fresh invoke id, and labels the context `invoke:<id>|<actor JSON>`. Inside
the task handler, `valence_from_context` reads the id back out of the label and takes the
staged `Valence` out of the store, once.

Layout:

- `src/decimal.rs` — decimal rendering and `u64` parsing, with their specifications.
- `src/invoke_label.rs` — building and parsing context labels; the label round-trip law.
- `src/staging.rs` — the store of staged Valence handles; read-after-stage and one-shot laws.
- `src/factory.rs` — the factory, the dispatch context, recovery, and the router config helper.
- `src/errors.rs` — the library's error values.
- `src/bindings.rs` — the trusted declarations of `serde_json` / `valence` types and calls.
- `app/` — the Boson side: the process-wide store behind a lock, and the `boson_core` trait
  impls (`ExecutionContext`, `ExecutionContextFactory`).
