use proc_runner::Context;
use proc_runner::LocalRunner;
use proc_runner::Stdio;

#[test]
fn local_runner_default_leaves_everything_unset() {
    let r = LocalRunner::default();
    assert_eq!(r.working_dir(), None);
    assert_eq!(r.env().len(), 0);
    assert!(!r.inherit_env());
    assert_eq!(r.stderr(), None);
    assert_eq!(r.stdout(), None);
    assert_eq!(r.stdin(), None);
}

#[test]
fn local_runner_setters_follow_slot_policy() {
    let mut r = LocalRunner::default();
    r.set_stdout(Stdio::Piped);
    assert_eq!(r.stdout(), None);
    r.set_working_dir("/tmp".to_string());
    assert_eq!(r.working_dir(), None);
    r.set_inherit_env(true);
    assert!(r.inherit_env());
    r.add_env("LANG".to_string(), "C".to_string());
    assert_eq!(r.env().get(&"LANG".to_string()), Some(&"C".to_string()));
}
