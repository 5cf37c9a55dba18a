# embeddenator_cli

The command layer of embeddenator: ingesting files and directories into a
holographic engram, and the incremental updates `add`, `remove`, `modify` and
`compact` on an existing engram. The encoding itself is done by
`embeddenator_fs`.

- `src/` is the verified library (Verus). `engram.rs` is the boundary with
  `embeddenator_fs`: it declares the engram type and states, for each call the
  commands make, what the call does to the manifest entries. `manifest.rs`
  models the manifest as a sequence of (logical path, deleted) entries;
  `update.rs` and `ingest.rs` hold the commands' logic; `naming.rs` the naming
  rules; `laws.rs` the properties that hold across commands.
- `app/` holds the command handlers: checking paths on disk, loading and
  saving engrams, and printing.
- `tests/` exercises the library against the real `embeddenator_fs`.
