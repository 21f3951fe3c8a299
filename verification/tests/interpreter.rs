use repo_man::init::{interpret_outcome, report_exit, ExecutionResult, InitError, InputField};

fn exited(code: Option<i32>, stdout: &[u8], stderr: &[u8]) -> ExecutionResult {
    ExecutionResult::Exited { exit_code: code, stdout: stdout.to_vec(), stderr: stderr.to_vec() }
}

#[test]
fn exit_code_zero_is_success_naming_repo_and_profile() {
    assert_eq!(
        interpret_outcome(exited(Some(0), b"", b""), "demo", "prod"),
        Ok("Repo 'demo' created on host 'prod'".to_string())
    );
}

#[test]
fn success_does_not_depend_on_the_streams() {
    assert_eq!(
        interpret_outcome(
            exited(Some(0), b"Initialized empty Git repository\n", b"warning\n"),
            "a",
            "b"
        ),
        Ok("Repo 'a' created on host 'b'".to_string())
    );
}

#[test]
fn exit_code_one_carries_the_error_stream() {
    assert_eq!(
        interpret_outcome(exited(Some(1), b"", b"fatal: directory exists"), "demo", "prod"),
        Err(InitError::RemoteCommandFailed { stderr: "fatal: directory exists".to_string() })
    );
}

#[test]
fn any_other_exit_code_is_a_failed_command() {
    for code in [1, 2, 127, 255, -1, i32::MIN, i32::MAX] {
        assert_eq!(
            interpret_outcome(exited(Some(code), b"out", b"err"), "demo", "prod"),
            Err(InitError::RemoteCommandFailed { stderr: "err".to_string() })
        );
    }
}

#[test]
fn end_by_signal_is_a_failed_command() {
    assert_eq!(
        interpret_outcome(exited(None, b"", b""), "demo", "prod"),
        Err(InitError::RemoteCommandFailed { stderr: String::new() })
    );
}

#[test]
fn error_stream_is_decoded_as_utf8() {
    assert_eq!(
        interpret_outcome(exited(Some(1), b"", "dépôt introuvable".as_bytes()), "demo", "prod"),
        Err(InitError::RemoteCommandFailed { stderr: "dépôt introuvable".to_string() })
    );
}

#[test]
fn invalid_bytes_of_the_error_stream_are_replaced() {
    assert_eq!(
        interpret_outcome(exited(Some(1), b"", &[b'f', 0xff, b'o']), "demo", "prod"),
        Err(InitError::RemoteCommandFailed { stderr: "f\u{fffd}o".to_string() })
    );
}

#[test]
fn timeout_is_reported_as_timeout() {
    assert_eq!(
        interpret_outcome(ExecutionResult::TimedOut, "demo", "prod"),
        Err(InitError::Timeout)
    );
}

#[test]
fn transport_error_carries_its_cause() {
    let cause = "No such file or directory (os error 2)";
    assert_eq!(
        interpret_outcome(
            ExecutionResult::TransportError { cause: cause.to_string() },
            "demo",
            "prod"
        ),
        Err(InitError::TransportError { cause: cause.to_string() })
    );
}

#[test]
fn succeeded_is_exit_code_zero() {
    assert!(exited(Some(0), b"", b"").succeeded());
    assert!(exited(Some(0), b"x", b"y").succeeded());
    assert!(!exited(Some(1), b"", b"").succeeded());
    assert!(!exited(None, b"", b"").succeeded());
    assert!(!ExecutionResult::TimedOut.succeeded());
    assert!(!ExecutionResult::TransportError { cause: String::new() }.succeeded());
}

#[test]
fn report_exit_on_given_text() {
    assert_eq!(
        report_exit(Some(0), "ignored".to_string(), "demo", "prod"),
        Ok("Repo 'demo' created on host 'prod'".to_string())
    );
    assert_eq!(
        report_exit(Some(3), "fatal: no".to_string(), "demo", "prod"),
        Err(InitError::RemoteCommandFailed { stderr: "fatal: no".to_string() })
    );
    assert_eq!(
        report_exit(None, String::new(), "demo", "prod"),
        Err(InitError::RemoteCommandFailed { stderr: String::new() })
    );
}

#[test]
fn messages_of_the_errors() {
    assert_eq!(
        InitError::MissingHost.message(),
        "You must specify '--host' or configure a host profile."
    );
    assert_eq!(
        InitError::UnknownProfile { profile: "prod".to_string() }.message(),
        "No config found for host 'prod'"
    );
    assert_eq!(
        InitError::UnsafeInput { field: InputField::RepoName, value: "a\0".to_string() }.message(),
        "Unsafe repository name: 'a\0'"
    );
    assert_eq!(
        InitError::UnsafeInput { field: InputField::BaseDir, value: String::new() }.message(),
        "Unsafe base directory: ''"
    );
    assert_eq!(
        InitError::UnsafeInput { field: InputField::DefaultBranch, value: String::new() }.message(),
        "Unsafe default branch: ''"
    );
    assert_eq!(
        InitError::RemoteCommandFailed { stderr: "fatal: directory exists".to_string() }.message(),
        "SSH command failed:\nfatal: directory exists"
    );
    assert_eq!(InitError::Timeout.message(), "Operation timed out after 10 seconds");
    assert_eq!(
        InitError::TransportError { cause: "permission denied".to_string() }.message(),
        "permission denied"
    );
}
