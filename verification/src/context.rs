use vstd::prelude::*;

use crate::env::EnvMap;
use crate::stdio::Stdio;

verus! {

/// The abstract value of a capability set: working directory, environment
/// overlay with an inherit-parent flag, and the three standard stream
/// dispositions. For the working directory and each stream slot, an absent
/// value means "defer to the executor's default".
#[verifier::ext_equal]
pub ghost struct ContextView {
    pub working_dir: Option<Seq<char>>,
    pub env: Map<Seq<char>, Seq<char>>,
    pub inherit_env: bool,
    pub stderr: Option<Stdio>,
    pub stdout: Option<Stdio>,
    pub stdin: Option<Stdio>,
}

/// The value of the environment overlay after the variables of `vars` are
/// added in order, each replacing an existing variable of the same name.
pub open spec fn env_overlay(
    m: Map<Seq<char>, Seq<char>>,
    vars: Seq<(String, String)>,
) -> Map<Seq<char>, Seq<char>>
    decreases vars.len(),
{
    if vars.len() == 0 {
        m
    } else {
        env_overlay(m, vars.drop_last()).insert(vars.last().0@, vars.last().1@)
    }
}

/// The capability contract shared by a command description and an executor's
/// own defaults.
///
/// A setter for an optional slot (working directory, any stream slot) obtains
/// a mutable reference to the current value and assigns into it if one
/// exists, so it deliberately leaves an unset slot unset; only a slot that
/// already holds a value is replaced.
pub trait Context: Sized {
    /// The abstract capability set this value stands for.
    spec fn ctx(&self) -> ContextView;

    /// Returns the working directory that is used on the process execution.
    fn working_dir(&self) -> (r: Option<&String>)
        ensures
            match r {
                Some(d) => self.ctx().working_dir == Some(d@),
                None => self.ctx().working_dir is None,
            },
    ;

    /// Returns a mutable reference to the working directory, if one is set.
    fn working_dir_mut(&mut self) -> (r: Option<&mut String>)
        ensures
            r is Some <==> old(self).ctx().working_dir is Some,
            r is Some ==> old(self).ctx().working_dir == Some((*r.unwrap())@) && final(self).ctx()
                == (ContextView { working_dir: Some((*final(r.unwrap()))@), ..old(self).ctx() }),
            r is None ==> *final(self) == *old(self),
    ;

    /// Sets the working directory that is used on the process execution,
    /// replacing the existing working directory, if any; on a context whose
    /// working directory is unset this is a no-op. Returns the receiver for
    /// use in a fluent configuration chain, as every setter here does.
    fn set_working_dir(&mut self, dir: String) -> (r: &mut Self)
        ensures
            (*r).ctx() == (ContextView {
                working_dir: match old(self).ctx().working_dir {
                    Some(_) => Some(dir@),
                    None => None,
                },
                ..old(self).ctx()
            }),
            *final(self) == *final(r),
    {
        if let Some(working_dir) = self.working_dir_mut() {
            *working_dir = dir;
        }
        self
    }

    /// Clears the working directory that is used on the process execution: a
    /// set value becomes the empty path, an unset slot stays unset.
    fn clear_working_dir(&mut self) -> (r: &mut Self)
        ensures
            (*r).ctx() == (ContextView {
                working_dir: match old(self).ctx().working_dir {
                    Some(_) => Some(Seq::<char>::empty()),
                    None => None,
                },
                ..old(self).ctx()
            }),
            *final(self) == *final(r),
    {
        if let Some(working_dir) = self.working_dir_mut() {
            *working_dir = String::new();
        }
        self
    }

    /// Returns the environment variables that are used on the process
    /// execution.
    fn env(&self) -> (r: &EnvMap)
        ensures
            r@ == self.ctx().env,
    ;

    /// Returns a mutable reference to the environment variables that are used
    /// on the process execution.
    fn env_mut(&mut self) -> (r: &mut EnvMap)
        ensures
            (*r)@ == old(self).ctx().env,
            final(self).ctx() == (ContextView { env: (*final(r))@, ..old(self).ctx() }),
    ;

    /// Sets the environment variables that are used on the process execution.
    fn set_env(&mut self, env: EnvMap) -> (r: &mut Self)
        ensures
            (*r).ctx() == (ContextView { env: env@, ..old(self).ctx() }),
            *final(self) == *final(r),
    {
        {
            let e = self.env_mut();
            *e = env;
        }
        self
    }

    /// Clears the environment variables that are used on the process
    /// execution.
    fn clear_env(&mut self) -> (r: &mut Self)
        ensures
            (*r).ctx() == (ContextView {
                env: Map::<Seq<char>, Seq<char>>::empty(),
                ..old(self).ctx()
            }),
            *final(self) == *final(r),
    {
        self.env_mut().clear();
        self
    }

    /// Adds an environment variable to the process execution context; if the
    /// variable already exists, its value is replaced.
    fn add_env(&mut self, key: String, value: String) -> (r: &mut Self)
        ensures
            (*r).ctx() == (ContextView {
                env: old(self).ctx().env.insert(key@, value@),
                ..old(self).ctx()
            }),
            *final(self) == *final(r),
    {
        self.env_mut().insert(key, value);
        self
    }

    /// Adds multiple environment variables to the process execution context;
    /// existing variables with the same names are replaced.
    fn add_envs(&mut self, vars: Vec<(String, String)>) -> (r: &mut Self)
        ensures
            (*r).ctx() == (ContextView {
                env: env_overlay(old(self).ctx().env, vars@),
                ..old(self).ctx()
            }),
            *final(self) == *final(r),
    {
        let ghost c0 = self.ctx();
        let n = vars.len();
        let mut i: usize = 0;
        while i < n
            invariant
                n == vars@.len(),
                i <= n,
                self.ctx() == (ContextView { env: env_overlay(c0.env, vars@.take(i as int)), ..c0 }),
            decreases n - i,
        {
            let key = vars[i].0.clone();
            let value = vars[i].1.clone();
            self.add_env(key, value);
            proof {
                assert(vars@.take(i as int + 1).drop_last() =~= vars@.take(i as int));
            }
            i += 1;
        }
        proof {
            assert(vars@.take(n as int) =~= vars@);
        }
        self
    }

    /// Returns whether the parent environment is inherited when executing a
    /// process.
    fn inherit_env(&self) -> (r: bool)
        ensures
            r == self.ctx().inherit_env,
    ;

    /// Returns a mutable reference to whether the parent environment is
    /// inherited.
    fn inherit_env_mut(&mut self) -> (r: &mut bool)
        ensures
            *r == old(self).ctx().inherit_env,
            final(self).ctx() == (ContextView { inherit_env: *final(r), ..old(self).ctx() }),
    ;

    /// Sets whether the parent environment is inherited when executing a
    /// process; returns the receiver for use in a fluent configuration
    /// chain.
    fn set_inherit_env(&mut self, inherit: bool) -> (r: &mut Self)
        ensures
            (*r).ctx() == (ContextView { inherit_env: inherit, ..old(self).ctx() }),
            *final(self) == *final(r),
    {
        {
            let v = self.inherit_env_mut();
            *v = inherit;
        }
        self
    }

    /// Returns the configuration for the child process's standard error
    /// handle.
    fn stderr(&self) -> (r: Option<Stdio>)
        ensures
            r == self.ctx().stderr,
    ;

    /// Returns a mutable reference to the configuration for the child
    /// process's standard error handle, if one is set.
    fn stderr_mut(&mut self) -> (r: Option<&mut Stdio>)
        ensures
            r is Some <==> old(self).ctx().stderr is Some,
            r is Some ==> old(self).ctx().stderr == Some(*r.unwrap()) && final(self).ctx()
                == (ContextView { stderr: Some(*final(r.unwrap())), ..old(self).ctx() }),
            r is None ==> *final(self) == *old(self),
    ;

    /// Sets the configuration for the child process's standard error handle,
    /// replacing the existing value, if any; on a context whose stderr slot
    /// is unset this is a no-op.
    fn set_stderr(&mut self, stderr: Stdio) -> (r: &mut Self)
        ensures
            (*r).ctx() == (ContextView {
                stderr: match old(self).ctx().stderr {
                    Some(_) => Some(stderr),
                    None => None,
                },
                ..old(self).ctx()
            }),
            *final(self) == *final(r),
    {
        if let Some(s) = self.stderr_mut() {
            *s = stderr;
        }
        self
    }

    /// Returns the configuration for the child process's standard output
    /// handle.
    fn stdout(&self) -> (r: Option<Stdio>)
        ensures
            r == self.ctx().stdout,
    ;

    /// Returns a mutable reference to the configuration for the child
    /// process's standard output handle, if one is set.
    fn stdout_mut(&mut self) -> (r: Option<&mut Stdio>)
        ensures
            r is Some <==> old(self).ctx().stdout is Some,
            r is Some ==> old(self).ctx().stdout == Some(*r.unwrap()) && final(self).ctx()
                == (ContextView { stdout: Some(*final(r.unwrap())), ..old(self).ctx() }),
            r is None ==> *final(self) == *old(self),
    ;

    /// Sets the configuration for the child process's standard output handle,
    /// replacing the existing value, if any; on a context whose stdout slot
    /// is unset this is a no-op.
    fn set_stdout(&mut self, stdout: Stdio) -> (r: &mut Self)
        ensures
            (*r).ctx() == (ContextView {
                stdout: match old(self).ctx().stdout {
                    Some(_) => Some(stdout),
                    None => None,
                },
                ..old(self).ctx()
            }),
            *final(self) == *final(r),
    {
        if let Some(s) = self.stdout_mut() {
            *s = stdout;
        }
        self
    }

    /// Returns the configuration for the child process's standard input
    /// handle.
    fn stdin(&self) -> (r: Option<Stdio>)
        ensures
            r == self.ctx().stdin,
    ;

    /// Returns a mutable reference to the configuration for the child
    /// process's standard input handle, if one is set.
    fn stdin_mut(&mut self) -> (r: Option<&mut Stdio>)
        ensures
            r is Some <==> old(self).ctx().stdin is Some,
            r is Some ==> old(self).ctx().stdin == Some(*r.unwrap()) && final(self).ctx()
                == (ContextView { stdin: Some(*final(r.unwrap())), ..old(self).ctx() }),
            r is None ==> *final(self) == *old(self),
    ;

    /// Sets the configuration for the child process's standard input handle,
    /// replacing the existing value, if any; on a context whose stdin slot is
    /// unset this is a no-op.
    fn set_stdin(&mut self, stdin: Stdio) -> (r: &mut Self)
        ensures
            (*r).ctx() == (ContextView {
                stdin: match old(self).ctx().stdin {
                    Some(_) => Some(stdin),
                    None => None,
                },
                ..old(self).ctx()
            }),
            *final(self) == *final(r),
    {
        if let Some(s) = self.stdin_mut() {
            *s = stdin;
        }
        self
    }
}

} // verus!
