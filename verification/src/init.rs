//! Creating a bare repository on a remote host: which parameters apply, which
//! command the remote shell is given, how the SSH client is called, and what
//! its outcome means.

pub mod builder;
pub mod error;
pub mod executor;
pub mod interpreter;
pub mod resolver;

use vstd::prelude::*;

use crate::config::{Config, HostConfigView};
use crate::text::{opt_view, result_view, texts};

pub use self::builder::{
    build_remote_command, built, command_items, command_tokens, is_unsafe, is_unsafe_text,
    lemma_command_of_valid_params, lemma_command_reads_back, lemma_name_is_quoted_or_refused,
    remote_command, remote_repo_path, repo_path,
};
pub use self::error::{error_message, field_label, InitError, InitErrorView, InputField};
pub use self::executor::{
    ssh_args, ssh_arguments, ExecutionResult, ExecutionResultView, SSH_PROGRAM, SSH_TIMEOUT_SECS,
};
pub use self::interpreter::{
    confirmation, interpret_outcome, interpreted, lemma_exit_zero_is_success,
    lemma_other_exit_carries_stderr, report_exit, reported,
};
pub use self::resolver::{resolve_params, resolved, EffectiveParams, EffectiveParamsView};

verus! {

/// All that is settled before the SSH client runs.
#[derive(Debug, PartialEq, Eq)]
pub struct RemotePlan {
    pub params: EffectiveParams,
    pub repo_path: String,
    pub command: String,
    pub ssh_args: Vec<String>,
}

/// The text that a [`RemotePlan`] holds.
pub struct RemotePlanView {
    pub params: EffectiveParamsView,
    pub repo_path: Seq<char>,
    pub command: Seq<char>,
    pub ssh_args: Seq<Seq<char>>,
}

impl View for RemotePlan {
    type V = RemotePlanView;

    open spec fn view(&self) -> RemotePlanView {
        RemotePlanView {
            params: self.params@,
            repo_path: self.repo_path@,
            command: self.command@,
            ssh_args: texts(self.ssh_args@),
        }
    }
}

/// The plan for parameters that resolved, or why there is no command for them.
pub open spec fn planned_for(params: EffectiveParamsView) -> Result<RemotePlanView, InitErrorView> {
    match built(params) {
        Err(error) => Err(error),
        Ok(command) => Ok(
            RemotePlanView {
                params,
                repo_path: repo_path(params.base_dir, params.repo_name),
                command,
                ssh_args: ssh_args(params.host, params.ssh_key, command),
            },
        ),
    }
}

/// The plan for a request, or the first reason why there is none: the
/// parameters are resolved, then the command is built from them.
pub open spec fn planned(
    profiles: Map<Seq<char>, HostConfigView>,
    name: Seq<char>,
    base_dir: Option<Seq<char>>,
    branch: Option<Seq<char>>,
    host: Option<Seq<char>>,
    ssh_key: Option<Seq<char>>,
) -> Result<RemotePlanView, InitErrorView> {
    match resolved(profiles, name, base_dir, branch, host, ssh_key) {
        Err(error) => Err(error),
        Ok(params) => planned_for(params),
    }
}

/// Settles everything that can be settled before the network is touched: the
/// parameters, the repository's path, the remote command and the arguments of
/// the SSH client.
pub fn plan_initialize(
    config: &Config,
    name: &str,
    override_base_dir: Option<String>,
    override_branch: Option<String>,
    override_host: Option<String>,
    override_ssh_key: Option<String>,
) -> (outcome: Result<RemotePlan, InitError>)
    ensures
        result_view(outcome) == planned(
            config.profiles(),
            name@,
            opt_view(override_base_dir),
            opt_view(override_branch),
            opt_view(override_host),
            opt_view(override_ssh_key),
        ),
{
    let params = match resolve_params(
        config,
        name,
        override_base_dir,
        override_branch,
        override_host,
        override_ssh_key,
    ) {
        Ok(params) => params,
        Err(error) => {
            return Err(error);
        },
    };
    let command = match build_remote_command(&params) {
        Ok(command) => command,
        Err(error) => {
            return Err(error);
        },
    };
    let repo_path = remote_repo_path(params.base_dir.as_str(), params.repo_name.as_str());
    let ssh_args = ssh_arguments(
        params.host.as_str(),
        match &params.ssh_key {
            Some(key) => Some(key.as_str()),
            None => None,
        },
        command.as_str(),
    );
    Ok(RemotePlan { params, repo_path, command, ssh_args })
}

impl RemotePlan {
    /// What is said before the SSH client runs: the host, then the repository's
    /// path.
    pub open spec fn notice_texts(plan: RemotePlanView) -> Seq<Seq<char>> {
        seq![
            "Connecting to remote host: "@ + plan.params.host,
            "Creating repository: "@ + plan.repo_path,
        ]
    }

    /// The lines to show before the SSH client runs.
    pub fn notices(&self) -> (lines: Vec<String>)
        ensures
            texts(lines@) == Self::notice_texts(self@),
    {
        let mut connecting = "Connecting to remote host: ".to_owned();
        connecting.append(self.params.host.as_str());
        let mut creating = "Creating repository: ".to_owned();
        creating.append(self.repo_path.as_str());
        let mut lines: Vec<String> = Vec::new();
        lines.push(connecting);
        lines.push(creating);
        assert(texts(lines@) =~= Self::notice_texts(self@));
        lines
    }
}

/// Without a profile's name there are no parameters, whatever the store holds
/// and whatever else was given: the answer is `MissingHost`.
pub proof fn lemma_no_selector_is_missing_host(
    profiles: Map<Seq<char>, HostConfigView>,
    name: Seq<char>,
    base_dir: Option<Seq<char>>,
    branch: Option<Seq<char>>,
    ssh_key: Option<Seq<char>>,
)
    ensures
        resolved(profiles, name, base_dir, branch, None, ssh_key) matches Err(
            InitErrorView::MissingHost,
        ),
        planned(profiles, name, base_dir, branch, None, ssh_key) matches Err(
            InitErrorView::MissingHost,
        ),
{
}

/// A name that the store does not hold gives `UnknownProfile` with that name,
/// whatever else was given.
pub proof fn lemma_absent_selector_is_unknown_profile(
    profiles: Map<Seq<char>, HostConfigView>,
    name: Seq<char>,
    base_dir: Option<Seq<char>>,
    branch: Option<Seq<char>>,
    selector: Seq<char>,
    ssh_key: Option<Seq<char>>,
)
    requires
        !profiles.contains_key(selector),
    ensures
        resolved(profiles, name, base_dir, branch, Some(selector), ssh_key) matches Err(
            InitErrorView::UnknownProfile { profile },
        ) && profile == selector,
        planned(profiles, name, base_dir, branch, Some(selector), ssh_key) matches Err(
            InitErrorView::UnknownProfile { profile },
        ) && profile == selector,
{
}

} // verus!
