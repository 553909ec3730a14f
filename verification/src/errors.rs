//! Errors that can end a migration step, and with it the whole chain.

use vstd::prelude::*;

verus! {

/// Why a migration step aborted. Either a record could not be read or
/// decoded from the source collection, or a converted record could not be
/// written to the destination (for example, its key was already present).
/// Nothing is retried: the first error ends the step and the chain.
#[derive(Clone, Copy, Debug, PartialEq, Eq, Structural)]
pub enum MigrationError {
    CursorDecode,
    Insert,
}

impl MigrationError {
    /// A human-readable description, for the log line the run controller
    /// emits once per failure.
    pub fn describe(&self) -> (s: &'static str)
        ensures
            self is CursorDecode ==> s@ == "unable to read the next record from the source cursor"@,
            self is Insert ==> s@ == "unable to insert a converted record into the destination"@,
    {
        match self {
            MigrationError::CursorDecode => "unable to read the next record from the source cursor",
            MigrationError::Insert => "unable to insert a converted record into the destination",
        }
    }
}

} // verus!
