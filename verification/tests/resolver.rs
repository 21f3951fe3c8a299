use repo_man::config::{Config, HostConfig};
use repo_man::init::{resolve_params, EffectiveParams, InitError};

fn profile(host: &str, base_dir: &str, branch: &str, key: Option<&str>) -> HostConfig {
    HostConfig {
        host: host.to_string(),
        base_dir: base_dir.to_string(),
        default_branch: branch.to_string(),
        ssh_key: key.map(str::to_string),
    }
}

fn store() -> Config {
    let mut config = Config::new();
    config.set_host_config(
        "prod".to_string(),
        profile("git.example.com", "/srv/git", "main", Some("/keys/prod")),
    );
    config.set_host_config("lab".to_string(), profile("10.0.0.7", "/home/git/repos", "", None));
    config
}

fn some(text: &str) -> Option<String> {
    Some(text.to_string())
}

#[test]
fn no_selector_gives_missing_host_on_an_empty_store() {
    let config = Config::new();
    assert_eq!(
        resolve_params(&config, "demo", None, None, None, None),
        Err(InitError::MissingHost)
    );
}

#[test]
fn no_selector_gives_missing_host_whatever_else_is_given() {
    let config = store();
    assert_eq!(
        resolve_params(&config, "demo", some("/tmp"), some("main"), None, some("/k")),
        Err(InitError::MissingHost)
    );
    assert_eq!(resolve_params(&config, "", None, None, None, None), Err(InitError::MissingHost));
}

#[test]
fn absent_selector_gives_unknown_profile() {
    let config = Config::new();
    assert_eq!(
        resolve_params(&config, "demo", None, None, some("prod"), None),
        Err(InitError::UnknownProfile { profile: "prod".to_string() })
    );
}

#[test]
fn selector_that_the_store_lacks_gives_unknown_profile() {
    let config = store();
    assert_eq!(
        resolve_params(&config, "demo", some("/tmp"), some("main"), some("staging"), None),
        Err(InitError::UnknownProfile { profile: "staging".to_string() })
    );
    assert_eq!(
        resolve_params(&config, "demo", None, None, some(""), None),
        Err(InitError::UnknownProfile { profile: String::new() })
    );
}

#[test]
fn profile_values_apply_without_overrides() {
    let config = store();
    assert_eq!(
        resolve_params(&config, "demo", None, None, some("prod"), None),
        Ok(EffectiveParams {
            repo_name: "demo".to_string(),
            host: "prod".to_string(),
            base_dir: "/srv/git".to_string(),
            default_branch: "main".to_string(),
            ssh_key: some("/keys/prod"),
        })
    );
}

#[test]
fn explicit_values_win_over_the_profile() {
    let config = store();
    assert_eq!(
        resolve_params(
            &config,
            "demo",
            some("/data"),
            some("trunk"),
            some("prod"),
            some("/keys/me")
        ),
        Ok(EffectiveParams {
            repo_name: "demo".to_string(),
            host: "prod".to_string(),
            base_dir: "/data".to_string(),
            default_branch: "trunk".to_string(),
            ssh_key: some("/keys/me"),
        })
    );
}

#[test]
fn branch_is_master_where_the_profile_names_none() {
    let config = store();
    assert_eq!(
        resolve_params(&config, "demo", None, None, some("lab"), None),
        Ok(EffectiveParams {
            repo_name: "demo".to_string(),
            host: "lab".to_string(),
            base_dir: "/home/git/repos".to_string(),
            default_branch: "master".to_string(),
            ssh_key: None,
        })
    );
}

#[test]
fn explicit_branch_wins_over_the_built_in_default() {
    let config = store();
    let params = resolve_params(&config, "demo", None, some("dev"), some("lab"), None).unwrap();
    assert_eq!(params.default_branch, "dev");
}

#[test]
fn resolving_leaves_the_store_as_it_was() {
    let config = store();
    let _ = resolve_params(&config, "demo", None, None, some("prod"), None);
    assert_eq!(config.len(), 2);
    assert_eq!(config.get_host_config("prod").unwrap().host, "git.example.com");
}
