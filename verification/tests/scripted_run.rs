use proc_runner::Child;
use proc_runner::Command;
use proc_runner::Context;
use proc_runner::ExitResult;
use proc_runner::Runner;
use proc_runner::ScriptedChild;
use proc_runner::ScriptedRunner;

#[test]
fn scripted_output_returns_script() {
    let mut runner = ScriptedRunner::new(ExitResult::Unix(0), b"hi\n".to_vec(), b"".to_vec());
    let output = runner.output().unwrap();
    assert_eq!(output.result, ExitResult::Unix(0));
    assert_eq!(output.stdout, b"hi\n".to_vec());
    assert_eq!(output.stderr, b"".to_vec());
}

#[test]
fn scripted_status_returns_result() {
    let mut runner = ScriptedRunner::new(ExitResult::Unix(256), b"".to_vec(), b"".to_vec());
    assert_eq!(runner.status().unwrap(), ExitResult::Unix(256));
    assert_eq!(runner.stdout(), None);
    assert_eq!(runner.stdin(), None);
    assert_eq!(runner.stderr(), None);
}

#[test]
fn child_wait_is_idempotent() {
    let mut child = ScriptedChild::new(ExitResult::Unix(0), b"out".to_vec(), b"err".to_vec(), true);
    let first = child.wait().unwrap();
    let second = child.wait().unwrap();
    let third = child.try_wait().unwrap();
    assert_eq!(first, ExitResult::Unix(0));
    assert_eq!(second, first);
    assert_eq!(third, Some(first));
}

#[test]
fn child_try_wait_repeats_result() {
    let mut child = ScriptedChild::new(ExitResult::Windows(5), b"".to_vec(), b"".to_vec(), false);
    let first = child.try_wait().unwrap();
    let second = child.try_wait().unwrap();
    assert_eq!(first, Some(ExitResult::Windows(5)));
    assert_eq!(second, first);
}

#[test]
fn wait_with_output_drains_both_streams() {
    let mut child = ScriptedChild::new(ExitResult::Unix(0), b"abc".to_vec(), b"def".to_vec(), true);
    let output = child.wait_with_output().unwrap();
    assert_eq!(output.stdout, b"abc".to_vec());
    assert_eq!(output.stderr, b"def".to_vec());
    let drained = child.wait_with_output().unwrap();
    assert_eq!(drained.result, ExitResult::Unix(0));
    assert_eq!(drained.stdout, b"".to_vec());
    assert_eq!(drained.stderr, b"".to_vec());
}

#[test]
fn echo_scenario_configuration_and_capture() {
    let mut command = Command::new("echo".to_string());
    command.add_arg("hi".to_string());
    assert_eq!(command.program(), "echo");
    assert_eq!(command.args(), &vec!["hi".to_string()]);

    let mut runner = ScriptedRunner::new(ExitResult::Unix(0), b"hi\n".to_vec(), b"".to_vec());
    let output = runner.output().unwrap();
    assert_eq!(output.stdout, b"hi\n".to_vec());
    assert!(output.stderr.is_empty());
    assert_eq!(output.result.raw_code(), 0);
}
