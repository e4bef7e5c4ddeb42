use proc_runner::ExitResult;
use proc_runner::Output;

#[test]
fn output_debug() {
    let output = Output {
        result: ExitResult::Unix(0),
        stdout: b"Hello, World!".to_vec(),
        stderr: b"".to_vec(),
    };
    assert_eq!(
        output.debug_string(),
        "Output { result: 0, stdout: \"Hello, World!\", stderr: \"\" }"
    );
}

#[test]
fn output_debug_invalid_bytes() {
    let output = Output {
        result: ExitResult::Other,
        stdout: b"ok".to_vec(),
        stderr: vec![255u8, 254u8, 0u8],
    };
    assert_eq!(
        output.debug_string(),
        "Output { result: -1, stdout: \"ok\", stderr: [255, 254, 0] }"
    );
}

#[test]
fn output_debug_escapes() {
    let output = Output {
        result: ExitResult::Unix(0),
        stdout: b"a\"b\\c\nd\te\rf\x01g".to_vec(),
        stderr: b"".to_vec(),
    };
    assert_eq!(
        output.debug_string(),
        "Output { result: 0, stdout: \"a\\\"b\\\\c\\nd\\te\\rf\\u{1}g\", stderr: \"\" }"
    );
}

#[test]
fn output_debug_negative_code() {
    let output = Output {
        result: ExitResult::Unix(-9),
        stdout: b"".to_vec(),
        stderr: b"".to_vec(),
    };
    assert_eq!(
        output.debug_string(),
        "Output { result: -9, stdout: \"\", stderr: \"\" }"
    );
}

#[test]
fn output_debug_windows_code() {
    let output = Output {
        result: ExitResult::Windows(3221225477),
        stdout: b"".to_vec(),
        stderr: b"".to_vec(),
    };
    assert_eq!(
        output.debug_string(),
        "Output { result: 3221225477, stdout: \"\", stderr: \"\" }"
    );
}

#[test]
fn output_debug_both_invalid() {
    let output = Output {
        result: ExitResult::Windows(2),
        stdout: vec![200u8],
        stderr: vec![129u8, 130u8],
    };
    assert_eq!(
        output.debug_string(),
        "Output { result: 2, stdout: [200], stderr: [129, 130] }"
    );
}

#[test]
fn raw_code_flattens_each_variant() {
    assert_eq!(ExitResult::Unix(137).raw_code(), 137i64);
    assert_eq!(ExitResult::Windows(1).raw_code(), 1i64);
    assert_eq!(ExitResult::Other.raw_code(), -1i64);
}
