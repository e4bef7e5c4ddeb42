use vstd::prelude::*;

verus! {

/// Describes what to do with a standard I/O stream for a child process.
#[derive(Clone, Copy, Debug, PartialEq, Eq, Structural)]
pub enum Stdio {
    /// The child inherits from the corresponding parent descriptor.
    Inherit,
    /// This stream will be ignored.
    ///
    /// This is the equivalent of attaching the stream to `/dev/null`.
    Null,
    /// A new pipe should be arranged to connect the parent and child processes.
    Piped,
}

/// The stream disposition a slot resolves to under a given executor
/// default: an explicitly set slot always wins, an unset slot falls back to
/// the default.
pub open spec fn resolved_stdio(slot: Option<Stdio>, default: Stdio) -> Stdio {
    match slot {
        Some(s) => s,
        None => default,
    }
}

/// The stream disposition an executor's plain spawn falls back to when a
/// configuration leaves the corresponding slot unset: the stream is
/// inherited.
pub open spec fn effective_stdio(slot: Option<Stdio>) -> Stdio {
    resolved_stdio(slot, Stdio::Inherit)
}

/// The per-stream dispositions of a capturing `output` run, as the triple
/// (stdin, stdout, stderr): an explicit choice always stands, an unset
/// stdout or stderr resolves to a pipe so the stream is captured, and an
/// unset stdin is discarded so the child sees immediate end-of-input.
pub open spec fn output_streams(
    stdin: Option<Stdio>,
    stdout: Option<Stdio>,
    stderr: Option<Stdio>,
) -> (Stdio, Stdio, Stdio) {
    (
        resolved_stdio(stdin, Stdio::Null),
        resolved_stdio(stdout, Stdio::Piped),
        resolved_stdio(stderr, Stdio::Piped),
    )
}

/// With no explicit stream overrides, a capturing `output` run captures
/// stdout and stderr and does not forward the parent's stdin: the unset
/// slots resolve to the discarded stream and two pipes.
pub proof fn lemma_output_unset_slots_capture(
    stdin: Option<Stdio>,
    stdout: Option<Stdio>,
    stderr: Option<Stdio>,
)
    requires
        stdin is None,
        stdout is None,
        stderr is None,
    ensures
        output_streams(stdin, stdout, stderr) == (Stdio::Null, Stdio::Piped, Stdio::Piped),
{
}

/// With no explicit stream overrides, every slot resolves to inheriting the
/// parent's descriptor: a plain status run shares all three streams with the
/// caller's own process.
pub proof fn lemma_unset_slots_inherit(
    stdin: Option<Stdio>,
    stdout: Option<Stdio>,
    stderr: Option<Stdio>,
)
    requires
        stdin is None,
        stdout is None,
        stderr is None,
    ensures
        effective_stdio(stdin) == Stdio::Inherit,
        effective_stdio(stdout) == Stdio::Inherit,
        effective_stdio(stderr) == Stdio::Inherit,
{
}

} // verus!
