use vstd::prelude::*;

use crate::child::Child;
use crate::context::Context;
use crate::error::IoError;
use crate::exit::ExitResult;
use crate::output::Output;
use crate::stdio::Stdio;
use crate::stdio::effective_stdio;

pub mod local;
pub mod scripted;

verus! {

/// A type that can run commands: it is itself [`Context`]-shaped, supplying
/// the defaults for any capability a configuration leaves unset, and turns
/// that configuration into a live [`Child`].
pub trait Runner: Context {
    type Child: Child;

    /// Executes the configuration as a child process, returning a handle to
    /// it. Each stream slot that is unset resolves to inheriting the parent's
    /// descriptor; the handle keeps a stdin endpoint open exactly when stdin
    /// resolves to a pipe. Fails with an I/O error if process creation fails.
    fn spawn(&mut self) -> (r: Result<Self::Child, IoError>)
        ensures
            final(self).ctx() == old(self).ctx(),
            r matches Ok(c) ==> c.observed_exit() is None && (c.stdin_open() <==> effective_stdio(
                old(self).ctx().stdin,
            ) == Stdio::Piped),
    ;

    /// Executes the command as a child process, waiting for it to finish and
    /// collecting all of its output: built purely from [`Runner::spawn`] and
    /// [`Child::wait_with_output`], so stdin is closed before the wait and
    /// both captured streams are drained completely before the record is
    /// returned. A capturing executor resolves unset stream slots as
    /// [`output_streams`](crate::output_streams) says: stdout and stderr
    /// become pipes and stdin is discarded, while explicit overrides stand.
    fn output(&mut self) -> (r: Result<Output, IoError>)
        ensures
            final(self).ctx() == old(self).ctx(),
    {
        let mut child = self.spawn()?;
        match child.wait_with_output() {
            Ok(output) => Ok(output),
            Err(e) => Err(e),
        }
    }

    /// Executes the command as a child process, waiting for it to finish and
    /// collecting its status: built purely from [`Runner::spawn`] and
    /// [`Child::wait`], so with no explicit overrides all three streams
    /// resolve to being inherited from the parent.
    fn status(&mut self) -> (r: Result<ExitResult, IoError>)
        ensures
            final(self).ctx() == old(self).ctx(),
    {
        let mut child = self.spawn()?;
        match child.wait() {
            Ok(result) => Ok(result),
            Err(e) => Err(e),
        }
    }
}

} // verus!
