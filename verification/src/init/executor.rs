//! How the SSH client is called, and how a call of it can end. Running it is
//! the caller's part.

use vstd::prelude::*;

use crate::text::texts;

verus! {

/// The program that is run as the SSH client.
pub const SSH_PROGRAM: &'static str = "ssh";

/// The seconds after which a call of the SSH client is given up.
pub const SSH_TIMEOUT_SECS: u64 = 10;

/// The arguments of the SSH client: the key file behind `-i` where there is
/// one, the host, and the remote command as one argument.
pub open spec fn ssh_args(
    host: Seq<char>,
    ssh_key: Option<Seq<char>>,
    command: Seq<char>,
) -> Seq<Seq<char>> {
    match ssh_key {
        Some(key) => seq!["-i"@, key, host, command],
        None => seq![host, command],
    }
}

/// The arguments with which the SSH client is called. Each is handed over as it
/// stands; no local shell reads them.
pub fn ssh_arguments(host: &str, ssh_key: Option<&str>, command: &str) -> (args: Vec<String>)
    ensures
        texts(args@) == ssh_args(
            host@,
            match ssh_key {
                Some(key) => Some(key@),
                None => None,
            },
            command@,
        ),
{
    let mut args: Vec<String> = Vec::new();
    match ssh_key {
        Some(key) => {
            args.push("-i".to_owned());
            args.push(key.to_owned());
        },
        None => {},
    }
    args.push(host.to_owned());
    args.push(command.to_owned());
    assert(texts(args@) =~= ssh_args(
        host@,
        match ssh_key {
            Some(key) => Some(key@),
            None => None,
        },
        command@,
    ));
    args
}

/// How a call of the SSH client ended.
#[derive(Debug, PartialEq, Eq)]
pub enum ExecutionResult {
    /// The client ran to its end. `exit_code` is `None` where a signal ended
    /// it.
    Exited { exit_code: Option<i32>, stdout: Vec<u8>, stderr: Vec<u8> },
    /// The time ran out first, and the client was stopped.
    TimedOut,
    /// The client could not be started or waited for.
    TransportError { cause: String },
}

/// An [`ExecutionResult`] with what it holds as sequences.
pub enum ExecutionResultView {
    Exited { exit_code: Option<i32>, stdout: Seq<u8>, stderr: Seq<u8> },
    TimedOut,
    TransportError { cause: Seq<char> },
}

impl View for ExecutionResult {
    type V = ExecutionResultView;

    open spec fn view(&self) -> ExecutionResultView {
        match self {
            ExecutionResult::Exited { exit_code, stdout, stderr } => ExecutionResultView::Exited {
                exit_code: *exit_code,
                stdout: stdout@,
                stderr: stderr@,
            },
            ExecutionResult::TimedOut => ExecutionResultView::TimedOut,
            ExecutionResult::TransportError { cause } => ExecutionResultView::TransportError {
                cause: cause@,
            },
        }
    }
}

impl ExecutionResult {
    /// Whether the client ran to its end with exit code 0.
    pub open spec fn is_success(&self) -> bool {
        self matches ExecutionResult::Exited { exit_code: Some(code), .. } && code == 0
    }

    /// Whether the client ran to its end with exit code 0.
    pub fn succeeded(&self) -> (success: bool)
        ensures
            success == self.is_success(),
    {
        match self {
            ExecutionResult::Exited { exit_code: Some(code), .. } => *code == 0,
            _ => false,
        }
    }
}

} // verus!
