use vstd::prelude::*;

use crate::context::Context;
use crate::context::ContextView;
use crate::env::EnvMap;
use crate::stdio::Stdio;

verus! {

/// The executor-side defaults of a runner backed by the real operating
/// system. The OS-specific spawn syscall sequence is an external
/// collaborator; this crate states only the contract such a spawn must
/// uphold, and holds the capability set it resolves unset slots against.
#[derive(Debug)]
pub struct LocalRunner {
    working_dir: Option<String>,
    inherit_env: bool,
    env: EnvMap,
    stderr: Option<Stdio>,
    stdout: Option<Stdio>,
    stdin: Option<Stdio>,
}

impl Default for LocalRunner {
    /// A fresh local runner: no working directory, an empty environment
    /// overlay that does not inherit the parent environment, and every
    /// stream slot unset.
    fn default() -> (r: Self)
        ensures
            r.ctx() == (ContextView {
                working_dir: None,
                env: Map::<Seq<char>, Seq<char>>::empty(),
                inherit_env: false,
                stderr: None,
                stdout: None,
                stdin: None,
            }),
    {
        LocalRunner {
            working_dir: None,
            inherit_env: false,
            env: EnvMap::new(),
            stderr: None,
            stdout: None,
            stdin: None,
        }
    }
}

impl Context for LocalRunner {
    closed spec fn ctx(&self) -> ContextView {
        ContextView {
            working_dir: match self.working_dir {
                Some(d) => Some(d@),
                None => None,
            },
            env: self.env@,
            inherit_env: self.inherit_env,
            stderr: self.stderr,
            stdout: self.stdout,
            stdin: self.stdin,
        }
    }

    fn working_dir(&self) -> (r: Option<&String>) {
        self.working_dir.as_ref()
    }

    fn working_dir_mut(&mut self) -> (r: Option<&mut String>) {
        self.working_dir.as_mut()
    }

    fn env(&self) -> (r: &EnvMap) {
        &self.env
    }

    fn env_mut(&mut self) -> (r: &mut EnvMap) {
        &mut self.env
    }

    fn inherit_env(&self) -> (r: bool) {
        self.inherit_env
    }

    fn inherit_env_mut(&mut self) -> (r: &mut bool) {
        &mut self.inherit_env
    }

    fn stderr(&self) -> (r: Option<Stdio>) {
        self.stderr
    }

    fn stderr_mut(&mut self) -> (r: Option<&mut Stdio>) {
        self.stderr.as_mut()
    }

    fn stdout(&self) -> (r: Option<Stdio>) {
        self.stdout
    }

    fn stdout_mut(&mut self) -> (r: Option<&mut Stdio>) {
        self.stdout.as_mut()
    }

    fn stdin(&self) -> (r: Option<Stdio>) {
        self.stdin
    }

    fn stdin_mut(&mut self) -> (r: Option<&mut Stdio>) {
        self.stdin.as_mut()
    }
}

} // verus!
