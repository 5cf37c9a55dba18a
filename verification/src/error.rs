//! Errors of the commands.

use vstd::prelude::*;

verus! {

/// Why a command failed.
#[derive(Debug)]
pub enum CommandError {
    /// The input at this position (among the inputs to ingest) does not exist.
    MissingInput(usize),
    /// The engram operation failed; the error is the one it reported.
    Engram(std::io::Error),
}

} // verus!
