//! What an outcome of the SSH client means.

use vstd::prelude::*;
use vstd::utf8::*;

use crate::init::error::{InitError, InitErrorView};
use crate::init::executor::{ExecutionResult, ExecutionResultView};
use crate::text::{decode_lossy, lossy_text, result_view};

verus! {

/// The words that confirm that the repository was created.
pub open spec fn confirmation(name: Seq<char>, profile: Seq<char>) -> Seq<char> {
    "Repo '"@ + name + "' created on host '"@ + profile + "'"@
}

/// What a run of the client that came to its end means: exit code 0 is
/// success, and anything else is the remote command's failure, told in the words
/// of its error stream.
pub open spec fn reported(
    exit_code: Option<i32>,
    stderr_text: Seq<char>,
    name: Seq<char>,
    profile: Seq<char>,
) -> Result<Seq<char>, InitErrorView> {
    if exit_code == Some(0i32) {
        Ok(confirmation(name, profile))
    } else {
        Err(InitErrorView::RemoteCommandFailed { stderr: stderr_text })
    }
}

/// Tells what a run of the client that came to its end means, given the text
/// of its error stream: the confirmation that names the repository and the
/// profile, or the failure of the remote command.
pub fn report_exit(
    exit_code: Option<i32>,
    stderr_text: String,
    name: &str,
    profile: &str,
) -> (outcome: Result<String, InitError>)
    ensures
        result_view(outcome) == reported(exit_code, stderr_text@, name@, profile@),
{
    match exit_code {
        Some(0) => {
            let mut message = "Repo '".to_owned();
            message.append(name);
            message.append("' created on host '");
            message.append(profile);
            message.append("'");
            Ok(message)
        },
        _ => Err(InitError::RemoteCommandFailed { stderr: stderr_text }),
    }
}

/// What an outcome of the SSH client means. The error stream is read as
/// [`lossy_text`] reads it.
pub open spec fn interpreted(
    result: ExecutionResultView,
    name: Seq<char>,
    profile: Seq<char>,
) -> Result<Seq<char>, InitErrorView> {
    match result {
        ExecutionResultView::Exited { exit_code, stdout, stderr } => reported(
            exit_code,
            lossy_text(stderr),
            name,
            profile,
        ),
        ExecutionResultView::TimedOut => Err(InitErrorView::Timeout),
        ExecutionResultView::TransportError { cause } => Err(
            InitErrorView::TransportError { cause },
        ),
    }
}

/// Turns the outcome of the SSH client into the confirmation or the error to
/// report. A failed remote command is reported in the words of its error
/// stream, which are exactly the text that the stream encodes where it is
/// valid UTF-8.
pub fn interpret_outcome(
    result: ExecutionResult,
    name: &str,
    profile: &str,
) -> (outcome: Result<String, InitError>)
    ensures
        result_view(outcome) == interpreted(result@, name@, profile@),
        result@ matches ExecutionResultView::Exited { exit_code, stdout, stderr } ==> (valid_utf8(
            stderr,
        ) ==> result_view(outcome) == reported(exit_code, decode_utf8(stderr), name@, profile@)),
{
    match result {
        ExecutionResult::Exited { exit_code, stdout, stderr } => {
            let stderr_text = decode_lossy(&stderr);
            report_exit(exit_code, stderr_text, name, profile)
        },
        ExecutionResult::TimedOut => Err(InitError::Timeout),
        ExecutionResult::TransportError { cause } => Err(InitError::TransportError { cause }),
    }
}

/// Exit code 0 means success whatever the two streams hold, and the
/// confirmation names the repository and the profile.
pub proof fn lemma_exit_zero_is_success(
    stdout: Seq<u8>,
    stderr: Seq<u8>,
    name: Seq<char>,
    profile: Seq<char>,
)
    ensures
        interpreted(
            ExecutionResultView::Exited { exit_code: Some(0i32), stdout, stderr },
            name,
            profile,
        ) == Ok::<Seq<char>, InitErrorView>(
            "Repo '"@ + name + "' created on host '"@ + profile + "'"@,
        ),
{
}

/// Any other end of the client is the remote command's failure, and the error
/// holds the text of the error stream and nothing else.
pub proof fn lemma_other_exit_carries_stderr(
    exit_code: Option<i32>,
    stdout: Seq<u8>,
    stderr: Seq<u8>,
    name: Seq<char>,
    profile: Seq<char>,
)
    requires
        exit_code != Some(0i32),
    ensures
        interpreted(ExecutionResultView::Exited { exit_code, stdout, stderr }, name, profile)
            == Err::<Seq<char>, InitErrorView>(
            InitErrorView::RemoteCommandFailed { stderr: lossy_text(stderr) },
        ),
{
}

} // verus!
