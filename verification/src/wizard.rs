//! The questions of the configuration wizard and what becomes of the answers.
//! Asking and reading is the caller's part.

use vstd::prelude::*;

use crate::config::{HostConfig, HostConfigView};
use crate::text::{trim, trimmed};

verus! {

/// A value of a profile that the wizard asks for.
#[derive(Debug, Clone, Copy, PartialEq, Eq)]
pub enum WizardField {
    Host,
    BaseDir,
    DefaultBranch,
    SshKey,
}

/// What the wizard calls a field.
pub open spec fn field_prompt(field: WizardField) -> Seq<char> {
    match field {
        WizardField::Host => "Host domain name or IP address"@,
        WizardField::BaseDir => "Repository base directory"@,
        WizardField::DefaultBranch => "Default Git branch"@,
        WizardField::SshKey => "SSH key path (optional)"@,
    }
}

/// The answer that stands for an empty one: the value of the profile that is
/// being changed, and for a new profile `/home/git/repos` as the base directory,
/// `master` as the branch, and nothing for the host and the key.
pub open spec fn default_answer(
    field: WizardField,
    existing: Option<HostConfigView>,
) -> Seq<char> {
    match field {
        WizardField::Host => match existing {
            Some(profile) => profile.host,
            None => Seq::empty(),
        },
        WizardField::BaseDir => match existing {
            Some(profile) => profile.base_dir,
            None => "/home/git/repos"@,
        },
        WizardField::DefaultBranch => match existing {
            Some(profile) => profile.default_branch,
            None => "master"@,
        },
        WizardField::SshKey => match existing {
            Some(HostConfigView { ssh_key: Some(key), .. }) => key,
            _ => Seq::empty(),
        },
    }
}

/// The view of a profile that may be there.
pub open spec fn existing_view(existing: Option<&HostConfig>) -> Option<HostConfigView> {
    match existing {
        Some(profile) => Some(profile@),
        None => None,
    }
}

/// The line that asks a question and shows what an empty answer stands for.
pub open spec fn prompt_line(prompt: Seq<char>, default: Seq<char>) -> Seq<char> {
    prompt + " ["@ + default + "]: "@
}

/// What the wizard calls a field.
pub fn prompt_for(field: WizardField) -> (prompt: &'static str)
    ensures
        prompt@ == field_prompt(field),
{
    match field {
        WizardField::Host => "Host domain name or IP address",
        WizardField::BaseDir => "Repository base directory",
        WizardField::DefaultBranch => "Default Git branch",
        WizardField::SshKey => "SSH key path (optional)",
    }
}

/// The answer that stands for an empty one.
pub fn default_for(field: WizardField, existing: Option<&HostConfig>) -> (default: String)
    ensures
        default@ == default_answer(field, existing_view(existing)),
{
    match field {
        WizardField::Host => match existing {
            Some(profile) => profile.host.clone(),
            None => String::new(),
        },
        WizardField::BaseDir => match existing {
            Some(profile) => profile.base_dir.clone(),
            None => "/home/git/repos".to_owned(),
        },
        WizardField::DefaultBranch => match existing {
            Some(profile) => profile.default_branch.clone(),
            None => "master".to_owned(),
        },
        WizardField::SshKey => match existing {
            Some(profile) => match &profile.ssh_key {
                Some(key) => key.clone(),
                None => String::new(),
            },
            None => String::new(),
        },
    }
}

/// The line that asks a question: `<prompt> [<default>]: `.
pub fn prompt_text(prompt: &str, default: &str) -> (line: String)
    ensures
        line@ == prompt_line(prompt@, default@),
{
    let mut line = prompt.to_owned();
    line.append(" [");
    line.append(default);
    line.append("]: ");
    line
}

/// The line that asks for a field of the profile.
pub fn question(field: WizardField, existing: Option<&HostConfig>) -> (line: String)
    ensures
        line@ == prompt_line(field_prompt(field), default_answer(field, existing_view(existing))),
{
    let default = default_for(field, existing);
    prompt_text(prompt_for(field), default.as_str())
}

/// The value that an answer gives: the answer, or the default where the answer
/// is empty.
pub open spec fn chosen(answer: Seq<char>, default: Seq<char>) -> Seq<char> {
    if answer.len() == 0 {
        default
    } else {
        answer
    }
}

/// The value that an answer gives, the answer being what is left of the line that
/// was read once the white space at its ends is gone.
pub fn choose_answer(answer: String, default: &str) -> (value: String)
    ensures
        value@ == chosen(answer@, default@),
{
    if answer.as_str().is_empty() {
        default.to_owned()
    } else {
        answer
    }
}

/// The value that a line of input gives: the line without the white space at
/// its ends, or the default where nothing else is left of it.
pub fn answer_or_default(input: &str, default: &str) -> (value: String)
    ensures
        value@ == chosen(trimmed(input@), default@),
{
    choose_answer(trim(input), default)
}

/// The name of the profile that a line of input names: the line without the
/// white space at its ends.
pub fn profile_name(input: &str) -> (name: String)
    ensures
        name@ == trimmed(input@),
{
    trim(input)
}

/// The profile that four answers give. Each answer that is empty stands for the
/// default of its field, and a key that is then still empty is no key.
pub open spec fn profile_of_answers(
    existing: Option<HostConfigView>,
    host: Seq<char>,
    base_dir: Seq<char>,
    default_branch: Seq<char>,
    ssh_key: Seq<char>,
) -> HostConfigView {
    let key = chosen(ssh_key, default_answer(WizardField::SshKey, existing));
    HostConfigView {
        host: chosen(host, default_answer(WizardField::Host, existing)),
        base_dir: chosen(base_dir, default_answer(WizardField::BaseDir, existing)),
        default_branch: chosen(
            default_branch,
            default_answer(WizardField::DefaultBranch, existing),
        ),
        ssh_key: if key.len() == 0 {
            None
        } else {
            Some(key)
        },
    }
}

/// The profile that four answers give, each answer being what is left of its
/// line once the white space at its ends is gone.
pub fn profile_from_answers(
    existing: Option<&HostConfig>,
    host: String,
    base_dir: String,
    default_branch: String,
    ssh_key: String,
) -> (profile: HostConfig)
    ensures
        profile@ == profile_of_answers(
            existing_view(existing),
            host@,
            base_dir@,
            default_branch@,
            ssh_key@,
        ),
{
    let host = choose_answer(host, default_for(WizardField::Host, existing).as_str());
    let base_dir = choose_answer(base_dir, default_for(WizardField::BaseDir, existing).as_str());
    let default_branch = choose_answer(
        default_branch,
        default_for(WizardField::DefaultBranch, existing).as_str(),
    );
    let key = choose_answer(ssh_key, default_for(WizardField::SshKey, existing).as_str());
    let ssh_key = if key.as_str().is_empty() {
        None
    } else {
        Some(key)
    };
    HostConfig { host, base_dir, default_branch, ssh_key }
}

/// The profile that four lines of input give.
pub fn profile_from_input(
    existing: Option<&HostConfig>,
    host: &str,
    base_dir: &str,
    default_branch: &str,
    ssh_key: &str,
) -> (profile: HostConfig)
    ensures
        profile@ == profile_of_answers(
            existing_view(existing),
            trimmed(host@),
            trimmed(base_dir@),
            trimmed(default_branch@),
            trimmed(ssh_key@),
        ),
{
    profile_from_answers(existing, trim(host), trim(base_dir), trim(default_branch), trim(ssh_key))
}

/// What is said once a profile is saved.
pub open spec fn saved_message(alias: Seq<char>) -> Seq<char> {
    "Host profile '"@ + alias + "' saved."@
}

/// What is said once the profile named `alias` is saved.
pub fn saved_text(alias: &str) -> (words: String)
    ensures
        words@ == saved_message(alias@),
{
    let mut words = "Host profile '".to_owned();
    words.append(alias);
    words.append("' saved.");
    words
}

} // verus!
