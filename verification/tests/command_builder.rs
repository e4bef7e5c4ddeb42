use proc_runner::Command;
use proc_runner::Context;
use proc_runner::EnvMap;
use proc_runner::Stdio;

#[test]
fn command_new_defaults() {
    let c = Command::new("echo".to_string());
    assert_eq!(c.program(), "echo");
    assert!(c.args().is_empty());
    assert_eq!(c.working_dir(), None);
    assert_eq!(c.env().len(), 0);
    assert!(!c.inherit_env());
    assert_eq!(c.stderr(), None);
    assert_eq!(c.stdout(), None);
    assert_eq!(c.stdin(), None);
}

#[test]
fn set_program_replaces() {
    let mut c = Command::new("echo".to_string());
    c.set_program("cat".to_string());
    assert_eq!(c.program(), "cat");
}

#[test]
fn args_accumulate_in_order() {
    let mut c = Command::new("echo".to_string());
    c.add_arg("-n".to_string())
        .add_args(vec!["hi".to_string(), "there".to_string()]);
    assert_eq!(c.args(), &vec!["-n".to_string(), "hi".to_string(), "there".to_string()]);
}

#[test]
fn set_args_clears_then_appends() {
    let mut c = Command::new("echo".to_string());
    c.add_arg("old".to_string());
    c.set_args(vec!["new".to_string()]);
    assert_eq!(c.args(), &vec!["new".to_string()]);
    c.clear_args();
    assert!(c.args().is_empty());
}

#[test]
fn args_mut_edits_in_place() {
    let mut c = Command::new("echo".to_string());
    c.add_arg("hi".to_string());
    c.args_mut()[0] = "bye".to_string();
    assert_eq!(c.args(), &vec!["bye".to_string()]);
}

#[test]
fn unset_slot_setter_is_noop() {
    let mut c = Command::new("echo".to_string());
    c.set_working_dir("/tmp".to_string());
    assert_eq!(c.working_dir(), None);
    c.set_stdout(Stdio::Piped);
    assert_eq!(c.stdout(), None);
    c.set_stderr(Stdio::Null);
    assert_eq!(c.stderr(), None);
    c.set_stdin(Stdio::Inherit);
    assert_eq!(c.stdin(), None);
    c.clear_working_dir();
    assert_eq!(c.working_dir(), None);
}

#[test]
fn env_setters_take_effect() {
    let mut c = Command::new("env".to_string());
    c.add_env("A".to_string(), "1".to_string());
    c.add_envs(vec![("B".to_string(), "2".to_string()), ("A".to_string(), "3".to_string())]);
    assert_eq!(c.env().len(), 2);
    assert_eq!(c.env().get(&"A".to_string()), Some(&"3".to_string()));
    assert_eq!(c.env().get(&"B".to_string()), Some(&"2".to_string()));
    let mut fresh = EnvMap::new();
    fresh.insert("C".to_string(), "4".to_string());
    c.set_env(fresh);
    assert_eq!(c.env().len(), 1);
    assert_eq!(c.env().get(&"C".to_string()), Some(&"4".to_string()));
    c.clear_env();
    assert_eq!(c.env().len(), 0);
}

#[test]
fn set_inherit_env_takes_effect() {
    let mut c = Command::new("env".to_string());
    c.set_inherit_env(true);
    assert!(c.inherit_env());
    c.set_inherit_env(false);
    assert!(!c.inherit_env());
}

#[test]
fn command_clone_keeps_configuration() {
    let mut c = Command::new("echo".to_string());
    c.add_arg("hi".to_string());
    c.add_env("A".to_string(), "1".to_string());
    let copy = c.clone();
    assert_eq!(copy.program(), "echo");
    assert_eq!(copy.args(), &vec!["hi".to_string()]);
    assert_eq!(copy.env().get(&"A".to_string()), Some(&"1".to_string()));
}

struct PinnedContext {
    wd: String,
    env: EnvMap,
    inherit: bool,
    se: Stdio,
    so: Stdio,
    si: Stdio,
}

impl Context for PinnedContext {
    fn ctx(&self) -> proc_runner::ContextView {
        unreachable!()
    }

    fn working_dir(&self) -> Option<&String> {
        Some(&self.wd)
    }

    fn working_dir_mut(&mut self) -> Option<&mut String> {
        Some(&mut self.wd)
    }

    fn env(&self) -> &EnvMap {
        &self.env
    }

    fn env_mut(&mut self) -> &mut EnvMap {
        &mut self.env
    }

    fn inherit_env(&self) -> bool {
        self.inherit
    }

    fn inherit_env_mut(&mut self) -> &mut bool {
        &mut self.inherit
    }

    fn stderr(&self) -> Option<Stdio> {
        Some(self.se)
    }

    fn stderr_mut(&mut self) -> Option<&mut Stdio> {
        Some(&mut self.se)
    }

    fn stdout(&self) -> Option<Stdio> {
        Some(self.so)
    }

    fn stdout_mut(&mut self) -> Option<&mut Stdio> {
        Some(&mut self.so)
    }

    fn stdin(&self) -> Option<Stdio> {
        Some(self.si)
    }

    fn stdin_mut(&mut self) -> Option<&mut Stdio> {
        Some(&mut self.si)
    }
}

#[test]
fn set_slot_setter_replaces_existing_value() {
    let mut ctx = PinnedContext {
        wd: "/".to_string(),
        env: EnvMap::new(),
        inherit: false,
        se: Stdio::Inherit,
        so: Stdio::Inherit,
        si: Stdio::Inherit,
    };
    ctx.set_working_dir("/tmp".to_string())
        .set_stdout(Stdio::Piped)
        .set_stderr(Stdio::Null);
    assert_eq!(ctx.working_dir(), Some(&"/tmp".to_string()));
    assert_eq!(ctx.stdout(), Some(Stdio::Piped));
    assert_eq!(ctx.stderr(), Some(Stdio::Null));
    ctx.set_stdin(Stdio::Piped);
    assert_eq!(ctx.stdin(), Some(Stdio::Piped));
    ctx.clear_working_dir();
    assert_eq!(ctx.working_dir(), Some(&"".to_string()));
}
