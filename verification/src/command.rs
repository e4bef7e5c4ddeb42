use vstd::prelude::*;

use crate::context::Context;
use crate::context::ContextView;
use crate::env::EnvMap;
use crate::stdio::Stdio;

verus! {

/// Configures how to execute a process using a [`Runner`](crate::Runner):
/// the program name, the ordered argument list, and the full capability set
/// of a [`Context`].
pub struct Command {
    program: String,
    args: Vec<String>,
    working_dir: Option<String>,
    inherit_env: bool,
    env: EnvMap,
    stderr: Option<Stdio>,
    stdout: Option<Stdio>,
    stdin: Option<Stdio>,
}

/// The texts of a list of strings.
pub open spec fn texts_of(s: Seq<String>) -> Seq<Seq<char>> {
    s.map_values(|x: String| x@)
}

/// An element-wise copy of a list of strings.
fn clone_string_vec(v: &Vec<String>) -> (r: Vec<String>)
    ensures
        texts_of(r@) == texts_of(v@),
{
    let n = v.len();
    let mut out: Vec<String> = Vec::new();
    let mut i: usize = 0;
    while i < n
        invariant
            n == v@.len(),
            i <= n,
            out@.len() == i,
            forall|jj: int| 0 <= jj < i ==> #[trigger] out@[jj]@ == v@[jj]@,
        decreases n - i,
    {
        out.push(v[i].clone());
        i += 1;
    }
    proof {
        assert(texts_of(out@) =~= texts_of(v@));
    }
    out
}

impl Command {
    /// The program name this command stands for.
    pub closed spec fn program_spec(&self) -> Seq<char> {
        self.program@
    }

    /// The ordered argument list this command stands for.
    pub closed spec fn args_spec(&self) -> Seq<Seq<char>> {
        texts_of(self.args@)
    }

    /// Builds a command that executes `program` with no arguments and every
    /// context capability left at its unset default.
    pub fn new(program: String) -> (c: Command)
        ensures
            c.program_spec() == program@,
            c.args_spec() == Seq::<Seq<char>>::empty(),
            c.ctx() == (ContextView {
                working_dir: None,
                env: Map::<Seq<char>, Seq<char>>::empty(),
                inherit_env: false,
                stderr: None,
                stdout: None,
                stdin: None,
            }),
    {
        let c = Command {
            program,
            args: Vec::new(),
            working_dir: None,
            inherit_env: false,
            env: EnvMap::new(),
            stderr: None,
            stdout: None,
            stdin: None,
        };
        proof {
            assert(c.args_spec() =~= Seq::<Seq<char>>::empty());
        }
        c
    }

    /// Returns the program that running the command will execute.
    pub fn program(&self) -> (r: &str)
        ensures
            r@ == self.program_spec(),
    {
        self.program.as_str()
    }

    /// Sets the `program` that will be executed by a runner; returns the
    /// receiver for use in a fluent configuration chain, as every builder
    /// method here does.
    pub fn set_program(&mut self, program: String) -> (r: &mut Self)
        ensures
            (*r).program_spec() == program@,
            (*r).args_spec() == old(self).args_spec(),
            (*r).ctx() == old(self).ctx(),
            *final(self) == *final(r),
    {
        self.program = program;
        self
    }

    /// Returns the arguments that are passed to the program when executed.
    pub fn args(&self) -> (r: &Vec<String>)
        ensures
            texts_of(r@) == self.args_spec(),
    {
        &self.args
    }

    /// Adds `arg` as an argument to the program, at the end of the argument
    /// list.
    pub fn add_arg(&mut self, arg: String) -> (r: &mut Self)
        ensures
            (*r).args_spec() == old(self).args_spec().push(arg@),
            (*r).program_spec() == old(self).program_spec(),
            (*r).ctx() == old(self).ctx(),
            *final(self) == *final(r),
    {
        self.args.push(arg);
        proof {
            assert(texts_of(self.args@) =~= old(self).args_spec().push(arg@));
        }
        self
    }

    /// Adds `args` as arguments to the program, each at the end of the
    /// argument list in the order given.
    pub fn add_args(&mut self, args: Vec<String>) -> (r: &mut Self)
        ensures
            (*r).args_spec() == old(self).args_spec() + texts_of(args@),
            (*r).program_spec() == old(self).program_spec(),
            (*r).ctx() == old(self).ctx(),
            *final(self) == *final(r),
    {
        let mut more = args;
        self.args.append(&mut more);
        proof {
            assert(texts_of(self.args@) =~= old(self).args_spec() + texts_of(args@));
        }
        self
    }

    /// Clears all arguments to the program.
    pub fn clear_args(&mut self) -> (r: &mut Self)
        ensures
            (*r).args_spec() == Seq::<Seq<char>>::empty(),
            (*r).program_spec() == old(self).program_spec(),
            (*r).ctx() == old(self).ctx(),
            *final(self) == *final(r),
    {
        self.args = Vec::new();
        proof {
            assert(texts_of(self.args@) =~= Seq::<Seq<char>>::empty());
        }
        self
    }

    /// Sets the arguments that are passed to the program when executed; any
    /// existing arguments are cleared first.
    pub fn set_args(&mut self, args: Vec<String>) -> (r: &mut Self)
        ensures
            (*r).args_spec() == texts_of(args@),
            (*r).program_spec() == old(self).program_spec(),
            (*r).ctx() == old(self).ctx(),
            *final(self) == *final(r),
    {
        self.clear_args();
        self.add_args(args);
        proof {
            assert(Seq::<Seq<char>>::empty() + texts_of(args@) =~= texts_of(args@));
        }
        self
    }

    /// Returns a mutable slice over the existing arguments, for in-place
    /// edits: single arguments can be replaced through it, but the length of
    /// the argument list cannot change.
    pub fn args_mut(&mut self) -> (r: &mut [String])
        ensures
            texts_of((*r)@) == old(self).args_spec(),
            final(self).args_spec() == texts_of((*final(r))@),
            final(self).program_spec() == old(self).program_spec(),
            final(self).ctx() == old(self).ctx(),
    {
        self.args.as_mut_slice()
    }
}

impl Context for Command {
    closed spec fn ctx(&self) -> ContextView {
        ContextView {
            working_dir: match self.working_dir {
                Some(d) => Some(d@),
                None => None,
            },
            env: self.env@,
            inherit_env: self.inherit_env,
            stderr: self.stderr,
            stdout: self.stdout,
            stdin: self.stdin,
        }
    }

    fn working_dir(&self) -> (r: Option<&String>) {
        self.working_dir.as_ref()
    }

    fn working_dir_mut(&mut self) -> (r: Option<&mut String>) {
        self.working_dir.as_mut()
    }

    fn env(&self) -> (r: &EnvMap) {
        &self.env
    }

    fn env_mut(&mut self) -> (r: &mut EnvMap) {
        &mut self.env
    }

    fn inherit_env(&self) -> (r: bool) {
        self.inherit_env
    }

    fn inherit_env_mut(&mut self) -> (r: &mut bool) {
        &mut self.inherit_env
    }

    fn stderr(&self) -> (r: Option<Stdio>) {
        self.stderr
    }

    fn stderr_mut(&mut self) -> (r: Option<&mut Stdio>) {
        self.stderr.as_mut()
    }

    fn stdout(&self) -> (r: Option<Stdio>) {
        self.stdout
    }

    fn stdout_mut(&mut self) -> (r: Option<&mut Stdio>) {
        self.stdout.as_mut()
    }

    fn stdin(&self) -> (r: Option<Stdio>) {
        self.stdin
    }

    fn stdin_mut(&mut self) -> (r: Option<&mut Stdio>) {
        self.stdin.as_mut()
    }
}

impl Clone for Command {
    /// The copy stands for the same program, arguments and capability set.
    fn clone(&self) -> (r: Self)
        ensures
            r.program_spec() == self.program_spec(),
            r.args_spec() == self.args_spec(),
            r.ctx() == self.ctx(),
    {
        Command {
            program: self.program.clone(),
            args: clone_string_vec(&self.args),
            working_dir: match &self.working_dir {
                Some(d) => Some(d.clone()),
                None => None,
            },
            inherit_env: self.inherit_env,
            env: self.env.clone(),
            stderr: self.stderr,
            stdout: self.stdout,
            stdin: self.stdin,
        }
    }
}

} // verus!
