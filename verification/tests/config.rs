use repo_man::config::{
    config_path_in, delete_host, list_hosts, Config, ConfigError, Deletion, HostConfig,
};

fn profile(host: &str, base_dir: &str, branch: &str, key: Option<&str>) -> HostConfig {
    HostConfig {
        host: host.to_string(),
        base_dir: base_dir.to_string(),
        default_branch: branch.to_string(),
        ssh_key: key.map(str::to_string),
    }
}

fn names(config: &Config) -> Vec<String> {
    let mut list = Vec::new();
    let mut i = 0;
    while let Some((name, _)) = config.entry(i) {
        list.push(name.to_string());
        i += 1;
    }
    list
}

#[test]
fn new_store_is_empty() {
    let config = Config::new();
    assert!(config.is_empty());
    assert_eq!(config.len(), 0);
    assert!(config.get_host_config("prod").is_none());
    assert!(config.entry(0).is_none());
}

#[test]
fn stored_profile_is_found_by_its_name() {
    let mut config = Config::new();
    config.set_host_config("prod".to_string(), profile("h", "/b", "main", Some("/k")));
    let found = config.get_host_config("prod").unwrap();
    assert_eq!(found.host, "h");
    assert_eq!(found.base_dir, "/b");
    assert_eq!(found.default_branch, "main");
    assert_eq!(found.ssh_key.as_deref(), Some("/k"));
    assert!(config.get_host_config("pro").is_none());
    assert!(config.get_host_config("prod ").is_none());
    assert!(config.get_host_config("").is_none());
    assert!(!config.is_empty());
}

#[test]
fn setting_a_name_again_replaces_the_profile_in_place() {
    let mut config = Config::new();
    config.set_host_config("a".to_string(), profile("1", "/1", "m", None));
    config.set_host_config("b".to_string(), profile("2", "/2", "m", None));
    config.set_host_config("c".to_string(), profile("3", "/3", "m", None));
    config.set_host_config("b".to_string(), profile("two", "/two", "main", Some("/k")));
    assert_eq!(config.len(), 3);
    assert_eq!(names(&config), vec!["a", "b", "c"]);
    assert_eq!(config.get_host_config("b").unwrap().host, "two");
    assert_eq!(config.get_host_config("a").unwrap().host, "1");
    assert_eq!(config.get_host_config("c").unwrap().host, "3");
}

#[test]
fn entry_gives_name_and_profile_in_order() {
    let mut config = Config::new();
    config.set_host_config("z".to_string(), profile("1", "/1", "m", None));
    config.set_host_config("a".to_string(), profile("2", "/2", "m", None));
    let (name, found) = config.entry(0).unwrap();
    assert_eq!((name, found.host.as_str()), ("z", "1"));
    let (name, found) = config.entry(1).unwrap();
    assert_eq!((name, found.host.as_str()), ("a", "2"));
    assert!(config.entry(2).is_none());
    assert!(config.entry(usize::MAX).is_none());
}

#[test]
fn removing_a_profile_keeps_the_others_in_order() {
    let mut config = Config::new();
    config.set_host_config("a".to_string(), profile("1", "/1", "m", None));
    config.set_host_config("b".to_string(), profile("2", "/2", "m", None));
    config.set_host_config("c".to_string(), profile("3", "/3", "m", None));
    assert!(config.remove_host("b"));
    assert_eq!(names(&config), vec!["a", "c"]);
    assert!(config.get_host_config("b").is_none());
    assert_eq!(config.get_host_config("c").unwrap().host, "3");
    assert!(!config.remove_host("b"));
    assert_eq!(config.len(), 2);
}

#[test]
fn deleting_a_profile_that_is_there() {
    let mut config = Config::new();
    config.set_host_config("prod".to_string(), profile("h", "/b", "main", None));
    assert_eq!(
        delete_host(&mut config, "prod"),
        Deletion { removed: true, message: "Host profile prod has been deleted.".to_string() }
    );
    assert!(config.is_empty());
}

#[test]
fn deleting_a_profile_that_is_not_there() {
    let mut config = Config::new();
    config.set_host_config("prod".to_string(), profile("h", "/b", "main", None));
    assert_eq!(
        delete_host(&mut config, "lab"),
        Deletion { removed: false, message: "Host profile lab not found.".to_string() }
    );
    assert_eq!(config.len(), 1);
}

#[test]
fn listing_of_an_empty_store() {
    assert_eq!(
        list_hosts(&Config::new()),
        "No host profiles found. Run `repo-man configure` to add one.\n"
    );
}

#[test]
fn listing_shows_each_profile_in_order() {
    let mut config = Config::new();
    config.set_host_config(
        "prod".to_string(),
        profile("git.example.com", "/srv/git", "main", Some("/keys/prod")),
    );
    config.set_host_config(
        "lab".to_string(),
        profile("10.0.0.7", "/home/git/repos", "master", None),
    );
    assert_eq!(
        list_hosts(&config),
        "Configured hosts:\n\n\
         prod\n\
         \x20   Host:           git.example.com\n\
         \x20   Base directory: /srv/git\n\
         \x20   Default branch: main\n\
         \x20   SSH key path:   /keys/prod\n\
         \n\
         lab\n\
         \x20   Host:           10.0.0.7\n\
         \x20   Base directory: /home/git/repos\n\
         \x20   Default branch: master\n\
         \x20   SSH key path:   None\n\
         \n"
    );
}

#[test]
fn clone_of_a_profile_holds_the_same_values() {
    let first = profile("h", "/b", "main", Some("/k"));
    let copy = first.clone();
    assert_eq!(copy.host, "h");
    assert_eq!(copy.base_dir, "/b");
    assert_eq!(copy.default_branch, "main");
    assert_eq!(copy.ssh_key.as_deref(), Some("/k"));
    assert_eq!(profile("h", "/b", "main", None).clone().ssh_key, None);
}

#[test]
fn config_file_lies_below_the_home_directory() {
    assert_eq!(
        config_path_in(Some("/home/alice".to_string())),
        Ok("/home/alice/.repo-man/config.toml".to_string())
    );
}

#[test]
fn config_file_needs_no_second_separator() {
    assert_eq!(
        config_path_in(Some("/home/alice/".to_string())),
        Ok("/home/alice/.repo-man/config.toml".to_string())
    );
    assert_eq!(config_path_in(Some("/".to_string())), Ok("/.repo-man/config.toml".to_string()));
    assert_eq!(config_path_in(Some(String::new())), Ok(".repo-man/config.toml".to_string()));
}

#[test]
fn config_file_without_home_directory() {
    assert_eq!(config_path_in(None), Err(ConfigError::HomeNotFound));
}

#[test]
fn path_goes_by_the_home_directory_of_this_user() {
    let home = dirs::home_dir().and_then(|dir| dir.into_os_string().into_string().ok());
    assert_eq!(Config::path(), config_path_in(home));
}

#[test]
fn messages_of_the_config_errors() {
    assert_eq!(ConfigError::HomeNotFound.message(), "Could not find home directory");
    assert_eq!(
        ConfigError::NotFound.message(),
        "Config not found. Please run `repo-man configure`."
    );
}

#[test]
fn store_from_entries_keeps_their_order() {
    let config = Config::from_entries(vec![
        ("b".to_string(), profile("2", "/2", "m", None)),
        ("a".to_string(), profile("1", "/1", "m", None)),
    ]);
    assert_eq!(names(&config), vec!["b", "a"]);
    assert_eq!(config.get_host_config("a").unwrap().host, "1");
    assert_eq!(config.get_host_config("b").unwrap().host, "2");
}

#[test]
fn store_from_entries_keeps_the_later_of_two_with_one_name() {
    let config = Config::from_entries(vec![
        ("a".to_string(), profile("1", "/1", "m", None)),
        ("b".to_string(), profile("2", "/2", "m", None)),
        ("a".to_string(), profile("3", "/3", "main", Some("/k"))),
    ]);
    assert_eq!(names(&config), vec!["a", "b"]);
    assert_eq!(config.get_host_config("a").unwrap().host, "3");
    assert_eq!(config.get_host_config("a").unwrap().ssh_key.as_deref(), Some("/k"));
    assert_eq!(config.len(), 2);
}

#[test]
fn store_from_no_entries_is_empty() {
    assert!(Config::from_entries(Vec::new()).is_empty());
}

#[test]
fn entries_are_names_and_profiles_in_order() {
    let mut config = Config::new();
    config.set_host_config("z".to_string(), profile("1", "/1", "m", Some("/k")));
    config.set_host_config("a".to_string(), profile("2", "/2", "n", None));
    let list = config.entries();
    assert_eq!(list.len(), 2);
    assert_eq!(list[0].0, "z");
    assert_eq!(list[0].1.host, "1");
    assert_eq!(list[0].1.base_dir, "/1");
    assert_eq!(list[0].1.default_branch, "m");
    assert_eq!(list[0].1.ssh_key.as_deref(), Some("/k"));
    assert_eq!(list[1].0, "a");
    assert_eq!(list[1].1.host, "2");
    assert_eq!(list[1].1.ssh_key, None);
    assert!(Config::new().entries().is_empty());
}

#[test]
fn entries_give_the_same_store_again() {
    let mut config = Config::new();
    config.set_host_config("z".to_string(), profile("1", "/1", "m", Some("/k")));
    config.set_host_config("a".to_string(), profile("2", "/2", "n", None));
    let again = Config::from_entries(config.entries());
    assert_eq!(list_hosts(&again), list_hosts(&config));
}

#[test]
fn loaded_without_a_file_is_not_found() {
    assert_eq!(Config::loaded(None).err(), Some(ConfigError::NotFound));
}

#[test]
fn loaded_with_a_file_holds_its_entries() {
    let config =
        Config::loaded(Some(vec![("prod".to_string(), profile("h", "/b", "main", None))])).unwrap();
    assert_eq!(names(&config), vec!["prod"]);
    assert_eq!(config.get_host_config("prod").unwrap().base_dir, "/b");
    assert!(Config::loaded(Some(Vec::new())).unwrap().is_empty());
}
