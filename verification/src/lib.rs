//! Verified core of the embeddenator command line: the bookkeeping behind
//! ingesting inputs into an engram and the incremental update commands
//! (add, remove, modify, compact).
//!
//! The holographic encoding itself is done by `embeddenator_fs`; this crate
//! states, over a model of the engram's manifest, what each command does to it.

pub mod engram;
pub mod error;
pub mod ingest;
pub mod laws;
pub mod manifest;
pub mod naming;
pub mod update;
