use repo_man::config::HostConfig;
use repo_man::wizard::{
    answer_or_default, choose_answer, default_for, profile_from_answers, profile_from_input,
    profile_name, prompt_for, prompt_text, question, saved_text, WizardField,
};

fn existing() -> HostConfig {
    HostConfig {
        host: "git.example.com".to_string(),
        base_dir: "/srv/git".to_string(),
        default_branch: "main".to_string(),
        ssh_key: Some("/keys/prod".to_string()),
    }
}

#[test]
fn prompts_of_the_fields() {
    assert_eq!(prompt_for(WizardField::Host), "Host domain name or IP address");
    assert_eq!(prompt_for(WizardField::BaseDir), "Repository base directory");
    assert_eq!(prompt_for(WizardField::DefaultBranch), "Default Git branch");
    assert_eq!(prompt_for(WizardField::SshKey), "SSH key path (optional)");
}

#[test]
fn defaults_for_a_new_profile() {
    assert_eq!(default_for(WizardField::Host, None), "");
    assert_eq!(default_for(WizardField::BaseDir, None), "/home/git/repos");
    assert_eq!(default_for(WizardField::DefaultBranch, None), "master");
    assert_eq!(default_for(WizardField::SshKey, None), "");
}

#[test]
fn defaults_for_a_profile_that_exists() {
    let profile = existing();
    assert_eq!(default_for(WizardField::Host, Some(&profile)), "git.example.com");
    assert_eq!(default_for(WizardField::BaseDir, Some(&profile)), "/srv/git");
    assert_eq!(default_for(WizardField::DefaultBranch, Some(&profile)), "main");
    assert_eq!(default_for(WizardField::SshKey, Some(&profile)), "/keys/prod");
    let keyless = HostConfig { ssh_key: None, ..existing() };
    assert_eq!(default_for(WizardField::SshKey, Some(&keyless)), "");
}

#[test]
fn prompt_shows_the_default_in_brackets() {
    assert_eq!(prompt_text("Default Git branch", "master"), "Default Git branch [master]: ");
    assert_eq!(prompt_text("Host", ""), "Host []: ");
}

#[test]
fn question_is_prompt_and_default() {
    assert_eq!(
        question(WizardField::BaseDir, None),
        "Repository base directory [/home/git/repos]: "
    );
    assert_eq!(
        question(WizardField::Host, Some(&existing())),
        "Host domain name or IP address [git.example.com]: "
    );
}

#[test]
fn answer_is_the_line_without_white_space_at_its_ends() {
    assert_eq!(answer_or_default("  /data/git \n", "/home/git/repos"), "/data/git");
    assert_eq!(answer_or_default("main\r\n", "master"), "main");
    assert_eq!(answer_or_default("two words\n", "d"), "two words");
}

#[test]
fn empty_answer_is_the_default() {
    assert_eq!(answer_or_default("\n", "master"), "master");
    assert_eq!(answer_or_default("", "master"), "master");
    assert_eq!(answer_or_default(" \t \n", "master"), "master");
    assert_eq!(answer_or_default("\n", ""), "");
}

#[test]
fn choose_answer_takes_the_answer_as_it_stands() {
    assert_eq!(choose_answer(" x ".to_string(), "d"), " x ");
    assert_eq!(choose_answer(String::new(), "d"), "d");
}

#[test]
fn profile_name_is_the_line_without_white_space_at_its_ends() {
    assert_eq!(profile_name(" prod\n"), "prod");
    assert_eq!(profile_name("\n"), "");
}

#[test]
fn answers_make_a_new_profile() {
    let profile = profile_from_input(None, "git.example.com\n", "\n", "main\n", "\n");
    assert_eq!(profile.host, "git.example.com");
    assert_eq!(profile.base_dir, "/home/git/repos");
    assert_eq!(profile.default_branch, "main");
    assert_eq!(profile.ssh_key, None);
}

#[test]
fn empty_answers_keep_the_profile_that_exists() {
    let profile = profile_from_input(Some(&existing()), "\n", "\n", "\n", "\n");
    assert_eq!(profile.host, "git.example.com");
    assert_eq!(profile.base_dir, "/srv/git");
    assert_eq!(profile.default_branch, "main");
    assert_eq!(profile.ssh_key.as_deref(), Some("/keys/prod"));
}

#[test]
fn answers_change_the_profile_that_exists() {
    let profile =
        profile_from_input(Some(&existing()), " 10.0.0.7 \n", "/data\n", "trunk\n", "/keys/new\n");
    assert_eq!(profile.host, "10.0.0.7");
    assert_eq!(profile.base_dir, "/data");
    assert_eq!(profile.default_branch, "trunk");
    assert_eq!(profile.ssh_key.as_deref(), Some("/keys/new"));
}

#[test]
fn answers_as_given_are_not_trimmed_again() {
    let profile = profile_from_answers(
        None,
        " h ".to_string(),
        String::new(),
        String::new(),
        " ".to_string(),
    );
    assert_eq!(profile.host, " h ");
    assert_eq!(profile.base_dir, "/home/git/repos");
    assert_eq!(profile.default_branch, "master");
    assert_eq!(profile.ssh_key.as_deref(), Some(" "));
}

#[test]
fn saved_message_names_the_profile() {
    assert_eq!(saved_text("prod"), "Host profile 'prod' saved.");
}
