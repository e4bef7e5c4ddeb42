use vstd::prelude::*;

use crate::error::IoError;
use crate::exit::ExitResult;
use crate::output::Output;

verus! {

/// A handle to a running or exited process: poll its status, block-wait for
/// its status, or block-wait while draining the captured streams into an
/// [`Output`].
///
/// The handle moves from running to exited exactly once. The first successful
/// wait reaps the underlying process record; every later call must repeat the
/// same successful result rather than re-reap or fail afresh.
pub trait Child: Sized {
    /// The exit result recorded by the first successful wait, if any.
    spec fn observed_exit(&self) -> Option<ExitResult>;

    /// Whether the handle still holds an open stdin endpoint of the child.
    spec fn stdin_open(&self) -> bool;

    /// The bytes a capturing wait would still drain from the child's stdout.
    spec fn pending_stdout(&self) -> Seq<u8>;

    /// The bytes a capturing wait would still drain from the child's stderr.
    spec fn pending_stderr(&self) -> Seq<u8>;

    /// Attempts to collect the exit status of the child if it has already
    /// exited, without blocking. `Ok(None)` means the child is still running;
    /// an error is possible only while no exit has been observed yet. Once a
    /// successful exit result has been returned, every later call returns
    /// that same result. Unlike [`Child::wait`], this does not close stdin.
    fn try_wait(&mut self) -> (r: Result<Option<ExitResult>, IoError>)
        ensures
            old(self).observed_exit() matches Some(res) ==> r == Ok::<
                Option<ExitResult>,
                IoError,
            >(Some(res)),
            r matches Ok(Some(res)) ==> final(self).observed_exit() == Some(res),
            !(r matches Ok(Some(_))) ==> final(self).observed_exit() == old(self).observed_exit()
                && old(self).observed_exit() is None,
            final(self).stdin_open() == old(self).stdin_open(),
            final(self).pending_stdout() == old(self).pending_stdout(),
            final(self).pending_stderr() == old(self).pending_stderr(),
    ;

    /// Waits for the child to exit completely, returning the status that it
    /// exited with. The stdin handle to the child, if any, is closed before
    /// waiting, so that the child does not block reading input from the
    /// parent while the parent waits for the child to exit. Once a successful
    /// result has been returned, every later call returns that same result.
    fn wait(&mut self) -> (r: Result<ExitResult, IoError>)
        ensures
            old(self).observed_exit() matches Some(res) ==> r == Ok::<ExitResult, IoError>(res),
            r matches Ok(res) ==> final(self).observed_exit() == Some(res),
            r is Err ==> final(self).observed_exit() == old(self).observed_exit()
                && old(self).observed_exit() is None,
            !final(self).stdin_open(),
            final(self).pending_stdout() == old(self).pending_stdout(),
            final(self).pending_stderr() == old(self).pending_stderr(),
    ;

    /// Simultaneously waits for the child to exit and collects all remaining
    /// output on the stdout and stderr handles. The stdin handle, if any, is
    /// closed before waiting, and both streams are drained to end-of-stream
    /// concurrently with the wait, so that a full pipe buffer can never stall
    /// the child. The returned record holds the exit result together with the
    /// complete remaining contents of both streams.
    fn wait_with_output(&mut self) -> (r: Result<Output, IoError>)
        ensures
            r matches Ok(o) ==> final(self).observed_exit() == Some(o.result)
                && o.stdout@ == old(self).pending_stdout()
                && o.stderr@ == old(self).pending_stderr()
                && final(self).pending_stdout() == Seq::<u8>::empty()
                && final(self).pending_stderr() == Seq::<u8>::empty(),
            old(self).observed_exit() matches Some(res) ==> (r matches Ok(o) ==> o.result == res),
            r is Err ==> final(self).observed_exit() == old(self).observed_exit(),
            !final(self).stdin_open(),
    ;
}

/// A scripted stand-in for a real process, so that mock execution can be
/// swapped in for OS execution: the handle is born with a fixed exit result
/// and fixed stream contents, and the first wait observes them.
pub struct ScriptedChild {
    result: ExitResult,
    stdout: Vec<u8>,
    stderr: Vec<u8>,
    open_stdin: bool,
    observed: bool,
}

impl ScriptedChild {
    /// The exit result every wait on this handle reports.
    pub closed spec fn scripted_result(&self) -> ExitResult {
        self.result
    }

    /// Builds a handle that reports `result` once waited on, and hands out
    /// `stdout` and `stderr` as the captured streams.
    pub fn new(result: ExitResult, stdout: Vec<u8>, stderr: Vec<u8>, open_stdin: bool) -> (c:
        ScriptedChild)
        ensures
            c.observed_exit() is None,
            c.scripted_result() == result,
            c.stdin_open() == open_stdin,
            c.pending_stdout() == stdout@,
            c.pending_stderr() == stderr@,
    {
        ScriptedChild { result, stdout, stderr, open_stdin, observed: false }
    }
}

impl Child for ScriptedChild {
    closed spec fn observed_exit(&self) -> Option<ExitResult> {
        if self.observed {
            Some(self.result)
        } else {
            None
        }
    }

    closed spec fn stdin_open(&self) -> bool {
        self.open_stdin
    }

    closed spec fn pending_stdout(&self) -> Seq<u8> {
        self.stdout@
    }

    closed spec fn pending_stderr(&self) -> Seq<u8> {
        self.stderr@
    }

    /// A scripted poll always observes the scripted exit.
    fn try_wait(&mut self) -> (r: Result<Option<ExitResult>, IoError>)
        ensures
            r == Ok::<Option<ExitResult>, IoError>(Some(old(self).scripted_result())),
            final(self).scripted_result() == old(self).scripted_result(),
    {
        self.observed = true;
        Ok(Some(self.result))
    }

    /// A scripted wait always succeeds with the scripted exit.
    fn wait(&mut self) -> (r: Result<ExitResult, IoError>)
        ensures
            r == Ok::<ExitResult, IoError>(old(self).scripted_result()),
            final(self).scripted_result() == old(self).scripted_result(),
    {
        self.observed = true;
        self.open_stdin = false;
        Ok(self.result)
    }

    /// A scripted capturing wait always succeeds with the scripted exit; the
    /// trait contract already forces the record to carry the pending streams.
    fn wait_with_output(&mut self) -> (r: Result<Output, IoError>)
        ensures
            r is Ok,
            r matches Ok(o) ==> o.result == old(self).scripted_result(),
            final(self).scripted_result() == old(self).scripted_result(),
    {
        self.observed = true;
        self.open_stdin = false;
        let mut stdout: Vec<u8> = Vec::new();
        let mut stderr: Vec<u8> = Vec::new();
        core::mem::swap(&mut self.stdout, &mut stdout);
        core::mem::swap(&mut self.stderr, &mut stderr);
        Ok(Output { result: self.result, stdout, stderr })
    }
}

} // verus!
