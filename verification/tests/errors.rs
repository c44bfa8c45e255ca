use cargo_travis::error::{internal, CliError, FailedTest, ProcessFailure, ValidationError};
use cargo_travis::process::ExitStatus;

fn failure(code: Option<i32>) -> ProcessFailure {
    ProcessFailure {
        description: "process didn't exit successfully: \"kcov\"".to_string(),
        status: ExitStatus { code },
        output: None,
    }
}

fn failed(package: &str, target: &str, code: Option<i32>) -> FailedTest {
    FailedTest {
        package_id: package.to_string(),
        target_name: target.to_string(),
        failure: failure(code),
    }
}

#[test]
fn process_failure_asks_for_the_exit_code_of_the_process() {
    assert_eq!(CliError::Process(failure(Some(7))).code(), 7);
    assert_eq!(CliError::Process(failure(Some(-3))).code(), -3);
}

#[test]
fn process_without_exit_code_asks_for_101() {
    assert_eq!(CliError::Process(failure(None)).code(), 101);
}

#[test]
fn test_failure_asks_for_the_exit_code_of_the_first_failed_test() {
    let error = CliError::Test {
        failed: vec![failed("a 0.1.0", "one", Some(4)), failed("b 0.1.0", "two", Some(9))],
    };
    assert_eq!(error.code(), 4);
    let killed = CliError::Test { failed: vec![failed("a 0.1.0", "one", None)] };
    assert_eq!(killed.code(), 101);
    assert_eq!(CliError::Test { failed: Vec::new() }.code(), 101);
}

#[test]
fn validation_asks_for_1() {
    assert_eq!(CliError::Validation(ValidationError::NoTests).code(), 1);
    assert_eq!(CliError::Validation(ValidationError::PathEscape).code(), 1);
    assert_eq!(CliError::Validation(ValidationError::NoDocumentation).code(), 1);
    assert_eq!(
        CliError::Validation(ValidationError::EntryName { name: "..".to_string() }).code(),
        1
    );
    assert_eq!(
        CliError::Validation(ValidationError::MissingVariable { name: "X".to_string() }).code(),
        1
    );
}

#[test]
fn other_failures_ask_for_101() {
    let spawn = CliError::Spawn {
        name: "wget".to_string(),
        args: Vec::new(),
        cause: "not found".to_string(),
    };
    assert_eq!(spawn.code(), 101);
    assert_eq!(CliError::Metadata { cause: "no manifest".to_string() }.code(), 101);
    assert_eq!(internal().code(), 101);
}

#[test]
fn messages_of_validation_errors() {
    assert_eq!(ValidationError::NoTests.message(), "no test executables were built");
    assert_eq!(
        ValidationError::PathEscape.message(),
        "Path passed in `--path` is outside the intended `target/doc-upload` folder"
    );
    assert_eq!(ValidationError::NoDocumentation.message(), "No documentation generated");
    assert_eq!(
        ValidationError::EntryName { name: "a/b".to_string() }.message(),
        "not a file name: a/b"
    );
    assert_eq!(
        ValidationError::MissingVariable { name: "TRAVIS_BRANCH".to_string() }.message(),
        "$TRAVIS_BRANCH not set"
    );
}

#[test]
fn messages_of_failures() {
    assert_eq!(
        CliError::Process(failure(Some(1))).message(),
        "process didn't exit successfully: \"kcov\""
    );
    let error = CliError::Test {
        failed: vec![failed("a 0.1.0 (path)", "one", Some(4)), failed("b 0.1.0", "two", Some(9))],
    };
    assert_eq!(error.message(), "test failed\none (a 0.1.0 (path))\ntwo (b 0.1.0)");
    assert_eq!(
        CliError::Metadata { cause: "no manifest".to_string() }.message(),
        "couldn't read package metadata: no manifest"
    );
    assert_eq!(internal().message(), "unexpected event");
    assert_eq!(
        CliError::Validation(ValidationError::NoTests).message(),
        "no test executables were built"
    );
}

#[test]
fn process_error_keeps_what_it_is_given() {
    let error = CliError::process_error("it broke", None, ExitStatus { code: Some(2) });
    assert_eq!(
        error,
        CliError::Process(ProcessFailure {
            description: "it broke".to_string(),
            status: ExitStatus { code: Some(2) },
            output: None,
        })
    );
}

#[test]
fn a_process_failure_shows_what_was_captured() {
    let failure = ProcessFailure {
        description: "process didn't exit successfully: \"kcov\"".to_string(),
        status: ExitStatus { code: Some(1) },
        output: Some(cargo_travis::process::Output {
            status: ExitStatus { code: Some(1) },
            stdout: b"running 1 test\n".to_vec(),
            stderr: b"boom".to_vec(),
        }),
    };
    assert_eq!(
        failure.message(),
        "process didn't exit successfully: \"kcov\"\n--- stdout\nrunning 1 test\n\n--- stderr\nboom"
    );
    assert_eq!(CliError::Process(failure).message().lines().count(), 6);
}

#[test]
fn an_empty_stream_is_not_shown() {
    let garbled = ProcessFailure {
        description: "it broke".to_string(),
        status: ExitStatus { code: Some(1) },
        output: Some(cargo_travis::process::Output {
            status: ExitStatus { code: Some(1) },
            stdout: Vec::new(),
            stderr: vec![b'a', 0xff, b'b'],
        }),
    };
    assert_eq!(garbled.message(), "it broke\n--- stderr\na\u{fffd}b");
    let silent = ProcessFailure {
        description: "it broke".to_string(),
        status: ExitStatus { code: Some(1) },
        output: Some(cargo_travis::process::Output {
            status: ExitStatus { code: Some(1) },
            stdout: Vec::new(),
            stderr: Vec::new(),
        }),
    };
    assert_eq!(silent.message(), "it broke");
    assert_eq!(failure(Some(1)).message(), "process didn't exit successfully: \"kcov\"");
}
