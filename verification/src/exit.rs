use vstd::prelude::*;

verus! {

/// Platform-neutral result of a finished process: a tagged union of a raw
/// Unix-style wait status (normal exit code or terminating signal, packed in
/// the status word), a raw Windows-style exit code, and a catch-all for any
/// other platform's representation.
#[derive(Clone, Copy, Debug, PartialEq, Eq, Structural)]
pub enum ExitResult {
    /// A raw Unix wait status word.
    Unix(i32),
    /// A raw Windows exit code.
    Windows(u32),
    /// An exit status that belongs to no recognized platform.
    Other,
}

/// Canonical flattening of the tagged union to a single signed code: the Unix
/// status word where the result is a Unix status, the Windows code where it is
/// a Windows status, and a reserved sentinel for anything else.
pub open spec fn raw_code_spec(r: ExitResult) -> int {
    match r {
        ExitResult::Unix(v) => v as int,
        ExitResult::Windows(c) => c as int,
        ExitResult::Other => -1,
    }
}

impl ExitResult {
    /// The flattened signed code, usable for display and logging.
    pub fn raw_code(&self) -> (code: i64)
        ensures
            code == raw_code_spec(*self),
    {
        match *self {
            ExitResult::Unix(v) => v as i64,
            ExitResult::Windows(c) => c as i64,
            ExitResult::Other => -1,
        }
    }
}

} // verus!
