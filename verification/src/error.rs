use vstd::prelude::*;

verus! {

/// The single error channel of the execution contract: a generic I/O failure,
/// raised when a process cannot be spawned or when the underlying wait
/// primitive itself fails.
#[derive(Debug, Clone, PartialEq, Eq)]
pub struct IoError {
    /// A human-readable description of the failure.
    pub message: String,
}

impl IoError {
    /// Builds a failure carrying `message`.
    pub fn new(message: String) -> (e: IoError)
        ensures
            e.message@ == message@,
    {
        IoError { message }
    }
}

} // verus!
