use vstd::prelude::*;

use crate::child::Child;
use crate::child::ScriptedChild;
use crate::context::Context;
use crate::context::ContextView;
use crate::env::EnvMap;
use crate::error::IoError;
use crate::exit::ExitResult;
use crate::runner::Runner;
use crate::stdio::Stdio;
use crate::stdio::effective_stdio;

verus! {

/// A runner whose executions are scripted rather than real, so that tests
/// and callers that must not touch the OS can drive the same execution
/// contract: every spawn hands out a [`ScriptedChild`] that reports the
/// configured exit result and stream contents.
pub struct ScriptedRunner {
    result: ExitResult,
    stdout: Vec<u8>,
    stderr_bytes: Vec<u8>,
    working_dir: Option<String>,
    inherit_env: bool,
    env: EnvMap,
    stderr: Option<Stdio>,
    stdout_slot: Option<Stdio>,
    stdin: Option<Stdio>,
}

/// An element-wise copy of a byte buffer.
fn clone_bytes(v: &Vec<u8>) -> (r: Vec<u8>)
    ensures
        r@ == v@,
{
    let n = v.len();
    let mut out: Vec<u8> = Vec::new();
    let mut i: usize = 0;
    while i < n
        invariant
            n == v@.len(),
            i <= n,
            out@ == v@.take(i as int),
        decreases n - i,
    {
        out.push(v[i]);
        proof {
            assert(v@.take(i as int + 1) =~= v@.take(i as int).push(v@[i as int]));
        }
        i += 1;
    }
    proof {
        assert(v@.take(n as int) =~= v@);
    }
    out
}

impl ScriptedRunner {
    /// The exit result every scripted execution reports.
    pub closed spec fn scripted_result(&self) -> ExitResult {
        self.result
    }

    /// The stdout bytes every scripted execution delivers.
    pub closed spec fn scripted_stdout(&self) -> Seq<u8> {
        self.stdout@
    }

    /// The stderr bytes every scripted execution delivers.
    pub closed spec fn scripted_stderr(&self) -> Seq<u8> {
        self.stderr_bytes@
    }

    /// Builds a runner whose every execution exits with `result` after
    /// writing `stdout` and `stderr` to its streams; every context
    /// capability starts at its unset default.
    pub fn new(result: ExitResult, stdout: Vec<u8>, stderr: Vec<u8>) -> (r: ScriptedRunner)
        ensures
            r.scripted_result() == result,
            r.scripted_stdout() == stdout@,
            r.scripted_stderr() == stderr@,
            r.ctx() == (ContextView {
                working_dir: None,
                env: Map::<Seq<char>, Seq<char>>::empty(),
                inherit_env: false,
                stderr: None,
                stdout: None,
                stdin: None,
            }),
    {
        ScriptedRunner {
            result,
            stdout,
            stderr_bytes: stderr,
            working_dir: None,
            inherit_env: false,
            env: EnvMap::new(),
            stderr: None,
            stdout_slot: None,
            stdin: None,
        }
    }
}

impl Context for ScriptedRunner {
    closed spec fn ctx(&self) -> ContextView {
        ContextView {
            working_dir: match self.working_dir {
                Some(d) => Some(d@),
                None => None,
            },
            env: self.env@,
            inherit_env: self.inherit_env,
            stderr: self.stderr,
            stdout: self.stdout_slot,
            stdin: self.stdin,
        }
    }

    fn working_dir(&self) -> (r: Option<&String>) {
        self.working_dir.as_ref()
    }

    fn working_dir_mut(&mut self) -> (r: Option<&mut String>) {
        self.working_dir.as_mut()
    }

    fn env(&self) -> (r: &EnvMap) {
        &self.env
    }

    fn env_mut(&mut self) -> (r: &mut EnvMap) {
        &mut self.env
    }

    fn inherit_env(&self) -> (r: bool) {
        self.inherit_env
    }

    fn inherit_env_mut(&mut self) -> (r: &mut bool) {
        &mut self.inherit_env
    }

    fn stderr(&self) -> (r: Option<Stdio>) {
        self.stderr
    }

    fn stderr_mut(&mut self) -> (r: Option<&mut Stdio>) {
        self.stderr.as_mut()
    }

    fn stdout(&self) -> (r: Option<Stdio>) {
        self.stdout_slot
    }

    fn stdout_mut(&mut self) -> (r: Option<&mut Stdio>) {
        self.stdout_slot.as_mut()
    }

    fn stdin(&self) -> (r: Option<Stdio>) {
        self.stdin
    }

    fn stdin_mut(&mut self) -> (r: Option<&mut Stdio>) {
        self.stdin.as_mut()
    }
}

impl Runner for ScriptedRunner {
    type Child = ScriptedChild;

    /// A scripted spawn never fails: it hands out a fresh handle loaded with
    /// the configured result and stream contents.
    fn spawn(&mut self) -> (r: Result<ScriptedChild, IoError>)
        ensures
            r is Ok,
            r matches Ok(c) ==> c.scripted_result() == old(self).scripted_result()
                && c.pending_stdout() == old(self).scripted_stdout() && c.pending_stderr() == old(
                self,
            ).scripted_stderr(),
            final(self).scripted_result() == old(self).scripted_result(),
            final(self).scripted_stdout() == old(self).scripted_stdout(),
            final(self).scripted_stderr() == old(self).scripted_stderr(),
    {
        let open_stdin = match self.stdin() {
            Some(Stdio::Piped) => true,
            _ => false,
        };
        let stdout = clone_bytes(&self.stdout);
        let stderr = clone_bytes(&self.stderr_bytes);
        Ok(ScriptedChild::new(self.result, stdout, stderr, open_stdin))
    }
}

} // verus!
