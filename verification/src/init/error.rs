//! Why no repository was created, and the words for it.

use vstd::prelude::*;

verus! {

/// A parameter that goes into the remote command.
#[derive(Debug, Clone, Copy, PartialEq, Eq)]
pub enum InputField {
    RepoName,
    BaseDir,
    DefaultBranch,
}

/// Why no repository was created.
#[derive(Debug, PartialEq, Eq)]
pub enum InitError {
    /// No profile was named.
    MissingHost,
    /// The store has no profile of that name.
    UnknownProfile { profile: String },
    /// No command can carry this value of the field.
    UnsafeInput { field: InputField, value: String },
    /// The remote command ran and failed; this is what it wrote to its error
    /// stream.
    RemoteCommandFailed { stderr: String },
    /// The SSH client did not finish in time.
    Timeout,
    /// The SSH client could not be run.
    TransportError { cause: String },
}

/// An [`InitError`] with its texts as sequences of characters.
pub enum InitErrorView {
    MissingHost,
    UnknownProfile { profile: Seq<char> },
    UnsafeInput { field: InputField, value: Seq<char> },
    RemoteCommandFailed { stderr: Seq<char> },
    Timeout,
    TransportError { cause: Seq<char> },
}

impl View for InitError {
    type V = InitErrorView;

    open spec fn view(&self) -> InitErrorView {
        match self {
            InitError::MissingHost => InitErrorView::MissingHost,
            InitError::UnknownProfile { profile } => InitErrorView::UnknownProfile {
                profile: profile@,
            },
            InitError::UnsafeInput { field, value } => InitErrorView::UnsafeInput {
                field: *field,
                value: value@,
            },
            InitError::RemoteCommandFailed { stderr } => InitErrorView::RemoteCommandFailed {
                stderr: stderr@,
            },
            InitError::Timeout => InitErrorView::Timeout,
            InitError::TransportError { cause } => InitErrorView::TransportError { cause: cause@ },
        }
    }
}

/// How a field is called in a message.
pub open spec fn field_label(field: InputField) -> Seq<char> {
    match field {
        InputField::RepoName => "repository name"@,
        InputField::BaseDir => "base directory"@,
        InputField::DefaultBranch => "default branch"@,
    }
}

/// The words in which an error is reported.
pub open spec fn error_message(error: InitErrorView) -> Seq<char> {
    match error {
        InitErrorView::MissingHost => "You must specify '--host' or configure a host profile."@,
        InitErrorView::UnknownProfile { profile } => "No config found for host '"@ + profile
            + "'"@,
        InitErrorView::UnsafeInput { field, value } => "Unsafe "@ + field_label(field) + ": '"@
            + value + "'"@,
        InitErrorView::RemoteCommandFailed { stderr } => "SSH command failed:\n"@ + stderr,
        InitErrorView::Timeout => "Operation timed out after 10 seconds"@,
        InitErrorView::TransportError { cause } => cause,
    }
}

impl InitError {
    /// The words in which the error is reported.
    pub fn message(&self) -> (words: String)
        ensures
            words@ == error_message(self@),
    {
        match self {
            InitError::MissingHost => {
                "You must specify '--host' or configure a host profile.".to_owned()
            },
            InitError::UnknownProfile { profile } => {
                let mut words = "No config found for host '".to_owned();
                words.append(profile.as_str());
                words.append("'");
                words
            },
            InitError::UnsafeInput { field, value } => {
                let mut words = "Unsafe ".to_owned();
                words.append(
                    match field {
                        InputField::RepoName => "repository name",
                        InputField::BaseDir => "base directory",
                        InputField::DefaultBranch => "default branch",
                    },
                );
                words.append(": '");
                words.append(value.as_str());
                words.append("'");
                words
            },
            InitError::RemoteCommandFailed { stderr } => {
                let mut words = "SSH command failed:\n".to_owned();
                words.append(stderr.as_str());
                words
            },
            InitError::Timeout => "Operation timed out after 10 seconds".to_owned(),
            InitError::TransportError { cause } => cause.clone(),
        }
    }
}

} // verus!
