//! Which parameters apply to an invocation: the explicit values laid over the
//! profile that was named.

use vstd::prelude::*;

use crate::config::{Config, HostConfigView};
use crate::init::error::{InitError, InitErrorView};
use crate::text::{opt_view, result_view};

verus! {

/// The parameters of one invocation, after the explicit values were laid over
/// the profile's.
#[derive(Debug, PartialEq, Eq)]
pub struct EffectiveParams {
    pub repo_name: String,
    pub host: String,
    pub base_dir: String,
    pub default_branch: String,
    pub ssh_key: Option<String>,
}

/// The text that [`EffectiveParams`] hold.
pub struct EffectiveParamsView {
    pub repo_name: Seq<char>,
    pub host: Seq<char>,
    pub base_dir: Seq<char>,
    pub default_branch: Seq<char>,
    pub ssh_key: Option<Seq<char>>,
}

impl View for EffectiveParams {
    type V = EffectiveParamsView;

    open spec fn view(&self) -> EffectiveParamsView {
        EffectiveParamsView {
            repo_name: self.repo_name@,
            host: self.host@,
            base_dir: self.base_dir@,
            default_branch: self.default_branch@,
            ssh_key: opt_view(self.ssh_key),
        }
    }
}

/// The parameters that apply, or why none do. The profile is the one named by
/// `host`; that name is also the host that the SSH client is given. A value
/// given explicitly wins over the profile's. The branch of a profile that
/// names none is `master`.
pub open spec fn resolved(
    profiles: Map<Seq<char>, HostConfigView>,
    name: Seq<char>,
    base_dir: Option<Seq<char>>,
    branch: Option<Seq<char>>,
    host: Option<Seq<char>>,
    ssh_key: Option<Seq<char>>,
) -> Result<EffectiveParamsView, InitErrorView> {
    match host {
        None => Err(InitErrorView::MissingHost),
        Some(selector) => if !profiles.contains_key(selector) {
            Err(InitErrorView::UnknownProfile { profile: selector })
        } else {
            let profile = profiles[selector];
            Ok(
                EffectiveParamsView {
                    repo_name: name,
                    host: selector,
                    base_dir: match base_dir {
                        Some(dir) => dir,
                        None => profile.base_dir,
                    },
                    default_branch: match branch {
                        Some(b) => b,
                        None => if profile.default_branch.len() > 0 {
                            profile.default_branch
                        } else {
                            "master"@
                        },
                    },
                    ssh_key: match ssh_key {
                        Some(key) => Some(key),
                        None => profile.ssh_key,
                    },
                },
            )
        },
    }
}

/// Lays the explicit values over the profile that `override_host` names.
pub fn resolve_params(
    config: &Config,
    name: &str,
    override_base_dir: Option<String>,
    override_branch: Option<String>,
    override_host: Option<String>,
    override_ssh_key: Option<String>,
) -> (outcome: Result<EffectiveParams, InitError>)
    ensures
        result_view(outcome) == resolved(
            config.profiles(),
            name@,
            opt_view(override_base_dir),
            opt_view(override_branch),
            opt_view(override_host),
            opt_view(override_ssh_key),
        ),
{
    let selector = match override_host {
        Some(host) => host,
        None => {
            return Err(InitError::MissingHost);
        },
    };
    let profile = match config.get_host_config(selector.as_str()) {
        Some(profile) => profile,
        None => {
            return Err(InitError::UnknownProfile { profile: selector });
        },
    };
    let base_dir = match override_base_dir {
        Some(dir) => dir,
        None => profile.base_dir.clone(),
    };
    let default_branch = match override_branch {
        Some(branch) => branch,
        None => if profile.default_branch.as_str().is_empty() {
            "master".to_owned()
        } else {
            profile.default_branch.clone()
        },
    };
    let ssh_key = match override_ssh_key {
        Some(key) => Some(key),
        None => match &profile.ssh_key {
            Some(key) => Some(key.clone()),
            None => None,
        },
    };
    Ok(
        EffectiveParams {
            repo_name: name.to_owned(),
            host: selector,
            base_dir,
            default_branch,
            ssh_key,
        },
    )
}

} // verus!
