//! Host profiles and the store that keeps them by name.

use vstd::prelude::*;

use crate::text::opt_view;

verus! {

/// Connection and target defaults for one remote host.
#[derive(Debug)]
pub struct HostConfig {
    pub host: String,
    pub base_dir: String,
    pub default_branch: String,
    pub ssh_key: Option<String>,
}

/// The text that a [`HostConfig`] holds.
pub struct HostConfigView {
    pub host: Seq<char>,
    pub base_dir: Seq<char>,
    pub default_branch: Seq<char>,
    pub ssh_key: Option<Seq<char>>,
}

impl View for HostConfig {
    type V = HostConfigView;

    open spec fn view(&self) -> HostConfigView {
        HostConfigView {
            host: self.host@,
            base_dir: self.base_dir@,
            default_branch: self.default_branch@,
            ssh_key: opt_view(self.ssh_key),
        }
    }
}

impl Clone for HostConfig {
    fn clone(&self) -> (copy: Self)
        ensures
            copy@ == self@,
    {
        HostConfig {
            host: self.host.clone(),
            base_dir: self.base_dir.clone(),
            default_branch: self.default_branch.clone(),
            ssh_key: match &self.ssh_key {
                Some(key) => Some(key.clone()),
                None => None,
            },
        }
    }
}

/// Why the profile store cannot be had.
#[derive(Debug, Clone, Copy, PartialEq, Eq)]
pub enum ConfigError {
    /// The user's home directory is not known.
    HomeNotFound,
    /// There is no configuration file yet.
    NotFound,
}

/// The words in which a [`ConfigError`] is reported.
pub open spec fn config_error_message(error: ConfigError) -> Seq<char> {
    match error {
        ConfigError::HomeNotFound => "Could not find home directory"@,
        ConfigError::NotFound => "Config not found. Please run `repo-man configure`."@,
    }
}

impl ConfigError {
    /// The words in which the error is reported.
    pub fn message(&self) -> (words: String)
        ensures
            words@ == config_error_message(*self),
    {
        match self {
            ConfigError::HomeNotFound => "Could not find home directory".to_owned(),
            ConfigError::NotFound => {
                "Config not found. Please run `repo-man configure`.".to_owned()
            },
        }
    }
}

/// The configuration file's place below a home directory:
/// `.repo-man/config.toml`, behind a separator unless the directory's path is
/// empty or ends in one.
pub open spec fn config_file_in(home: Seq<char>) -> Seq<char> {
    if home.len() == 0 || home.last() == '/' {
        home + ".repo-man/config.toml"@
    } else {
        home + "/"@ + ".repo-man/config.toml"@
    }
}

/// The configuration file's place, given the home directory if one is known.
pub open spec fn config_path_for(home: Option<Seq<char>>) -> Result<Seq<char>, ConfigError> {
    match home {
        Some(dir) => Ok(config_file_in(dir)),
        None => Err(ConfigError::HomeNotFound),
    }
}

/// The configuration file's place, given the home directory if one is known.
pub fn config_path_in(home: Option<String>) -> (outcome: Result<String, ConfigError>)
    ensures
        match outcome {
            Ok(path) => config_path_for(opt_view(home)) == Ok::<Seq<char>, ConfigError>(path@),
            Err(error) => config_path_for(opt_view(home)) == Err::<Seq<char>, ConfigError>(error),
        },
{
    match home {
        Some(dir) => {
            let length = dir.as_str().unicode_len();
            let mut path = dir;
            if length > 0 && path.as_str().get_char(length - 1) != '/' {
                path.append("/");
            }
            path.append(".repo-man/config.toml");
            Ok(path)
        },
        None => Err(ConfigError::HomeNotFound),
    }
}

/// `dirs::home_dir`, with the path as a string: the user's home directory as the
/// platform tells it, or `None` where it tells none or the path is not Unicode.
/// Nothing is known of it beforehand.
#[verifier::external_body]
fn home_directory() -> (home: Option<String>) {
    match dirs::home_dir() {
        Some(dir) => dir.into_os_string().into_string().ok(),
        None => None,
    }
}

/// The name and the text of each entry of a list.
pub open spec fn entry_views(
    entries: Seq<(String, HostConfig)>,
) -> Seq<(Seq<char>, HostConfigView)> {
    entries.map_values(|e: (String, HostConfig)| (e.0@, e.1@))
}

/// The profiles that are there when the entries of a list were stored one after
/// the other: of two entries with one name, the later one.
pub open spec fn stored_profiles(
    entries: Seq<(Seq<char>, HostConfigView)>,
) -> Map<Seq<char>, HostConfigView>
    decreases entries.len(),
{
    if entries.len() == 0 {
        Map::empty()
    } else {
        stored_profiles(entries.drop_last()).insert(entries.last().0, entries.last().1)
    }
}

/// The names of the entries of a list, each where it first occurs.
pub open spec fn stored_names(entries: Seq<(Seq<char>, HostConfigView)>) -> Seq<Seq<char>>
    decreases entries.len(),
{
    if entries.len() == 0 {
        Seq::empty()
    } else {
        let before = stored_names(entries.drop_last());
        if before.contains(entries.last().0) {
            before
        } else {
            before.push(entries.last().0)
        }
    }
}

/// The names of the entries, in their order.
spec fn names_of(entries: Seq<(String, HostConfig)>) -> Seq<Seq<char>> {
    entries.map_values(|e: (String, HostConfig)| e.0@)
}

/// The profiles of the entries by name.
spec fn profiles_of(entries: Seq<(String, HostConfig)>) -> Map<Seq<char>, HostConfigView> {
    Map::new(
        |name: Seq<char>| names_of(entries).contains(name),
        |name: Seq<char>| entries[names_of(entries).index_of(name)].1@,
    )
}

/// With distinct names, each entry is what its name leads to.
proof fn lemma_entry_lookup(entries: Seq<(String, HostConfig)>, k: int)
    requires
        names_of(entries).no_duplicates(),
        0 <= k < entries.len(),
    ensures
        names_of(entries).index_of(entries[k].0@) == k,
        profiles_of(entries).contains_key(entries[k].0@),
        profiles_of(entries)[entries[k].0@] == entries[k].1@,
{
    let names = names_of(entries);
    assert(names[k] == entries[k].0@);
    assert(names.contains(entries[k].0@));
    assert(names.index_of(entries[k].0@) == k);
}

/// A name among the profiles is the name of some entry.
proof fn lemma_name_place(entries: Seq<(String, HostConfig)>, name: Seq<char>) -> (k: int)
    requires
        names_of(entries).contains(name),
    ensures
        0 <= k < entries.len(),
        entries[k].0@ == name,
{
    let k = names_of(entries).index_of(name);
    assert(names_of(entries)[k] == name);
    k
}

/// Putting an entry in the place of the one with its name, or at the end where
/// no entry has its name, stores its profile under its name and leaves the rest.
proof fn lemma_entry_put(
    was: Seq<(String, HostConfig)>,
    now: Seq<(String, HostConfig)>,
    place: Option<int>,
    entry: (String, HostConfig),
)
    requires
        names_of(was).no_duplicates(),
        match place {
            Some(i) => 0 <= i < was.len() && was[i].0@ == entry.0@ && now == was.update(i, entry),
            None => !names_of(was).contains(entry.0@) && now == was.push(entry),
        },
    ensures
        names_of(now).no_duplicates(),
        names_of(now) == if place is Some {
            names_of(was)
        } else {
            names_of(was).push(entry.0@)
        },
        profiles_of(now) == profiles_of(was).insert(entry.0@, entry.1@),
{
    let after = profiles_of(was).insert(entry.0@, entry.1@);
    assert(names_of(now) =~= if place is Some {
        names_of(was)
    } else {
        names_of(was).push(entry.0@)
    });
    assert(names_of(now).no_duplicates());
    assert forall|name: Seq<char>| #[trigger] profiles_of(now).contains_key(name) implies (
    after.contains_key(name) && profiles_of(now)[name] == after[name]) by {
        let k = lemma_name_place(now, name);
        lemma_entry_lookup(now, k);
        if name != entry.0@ {
            assert(names_of(was)[k] == name);
            lemma_entry_lookup(was, k);
        } else {
            let put = match place {
                Some(i) => i,
                None => was.len() as int,
            };
            assert(names_of(now)[put] == name);
            assert(names_of(now)[k] == name);
        }
    }
    assert forall|name: Seq<char>| #[trigger] after.contains_key(name) implies profiles_of(
        now,
    ).contains_key(name) by {
        if name != entry.0@ {
            let k = lemma_name_place(was, name);
            assert(names_of(now)[k] == name);
        } else {
            let k = match place {
                Some(i) => i,
                None => was.len() as int,
            };
            assert(names_of(now)[k] == name);
        }
    }
    assert(profiles_of(now) =~= after);
}

/// Taking an entry out removes its name and its profile and leaves the rest.
proof fn lemma_entry_taken(was: Seq<(String, HostConfig)>, i: int)
    requires
        names_of(was).no_duplicates(),
        0 <= i < was.len(),
    ensures
        names_of(was).index_of(was[i].0@) == i,
        profiles_of(was).contains_key(was[i].0@),
        names_of(was.remove(i)).no_duplicates(),
        names_of(was.remove(i)) == names_of(was).remove(i),
        profiles_of(was.remove(i)) == profiles_of(was).remove(was[i].0@),
{
    let now = was.remove(i);
    let after = profiles_of(was).remove(was[i].0@);
    lemma_entry_lookup(was, i);
    assert(names_of(now) =~= names_of(was).remove(i));
    assert forall|a: int, b: int| 0 <= a < now.len() && 0 <= b < now.len() && a != b implies (
    names_of(now)[a] != names_of(now)[b]) by {
        let a0 = if a < i { a } else { a + 1 };
        let b0 = if b < i { b } else { b + 1 };
        assert(names_of(now)[a] == names_of(was)[a0]);
        assert(names_of(now)[b] == names_of(was)[b0]);
    }
    assert forall|name: Seq<char>| #[trigger] profiles_of(now).contains_key(name) implies (
    after.contains_key(name) && profiles_of(now)[name] == after[name]) by {
        let k = lemma_name_place(now, name);
        lemma_entry_lookup(now, k);
        let k0 = if k < i { k } else { k + 1 };
        assert(now[k] == was[k0]);
        assert(names_of(was)[k0] == name);
        lemma_entry_lookup(was, k0);
    }
    assert forall|name: Seq<char>| #[trigger] after.contains_key(name) implies profiles_of(
        now,
    ).contains_key(name) by {
        let k0 = lemma_name_place(was, name);
        let k = if k0 < i { k0 } else { k0 - 1 };
        assert(names_of(now)[k] == name);
    }
    assert(profiles_of(now) =~= after);
}

/// The profile store: host profiles by name, in the order in which their names
/// were first set. No name occurs twice.
#[derive(Debug)]
pub struct Config {
    entries: Vec<(String, HostConfig)>,
}

impl Config {
    /// Holds of every store: no name occurs twice.
    #[verifier::type_invariant]
    pub open spec fn names_are_distinct(&self) -> bool {
        self.names().no_duplicates()
    }

    /// The profile names, in the order in which they were first set.
    pub closed spec fn names(&self) -> Seq<Seq<char>> {
        names_of(self.entries@)
    }

    /// The stored profiles by name.
    pub closed spec fn profiles(&self) -> Map<Seq<char>, HostConfigView> {
        profiles_of(self.entries@)
    }

    /// The store's entries: each name, in the store's order, with its profile.
    pub open spec fn listed(&self) -> Seq<(Seq<char>, HostConfigView)> {
        Seq::new(self.names().len(), |i: int| (self.names()[i], self.profiles()[self.names()[i]]))
    }

    /// The names are the names of the profiles.
    pub proof fn lemma_names_of_profiles(&self)
        ensures
            forall|name: Seq<char>|
                self.names().contains(name) <==> #[trigger] self.profiles().contains_key(name),
    {
    }

    /// Where the configuration file lies: below the user's home directory, as
    /// [`config_path_in`] places it, or `HomeNotFound` where no home directory is
    /// known.
    pub fn path() -> (outcome: Result<String, ConfigError>)
        ensures
            match outcome {
                Ok(path) => exists|home: Seq<char>| path@ == config_file_in(home),
                Err(error) => error == ConfigError::HomeNotFound,
            },
    {
        let home = home_directory();
        let ghost known = opt_view(home);
        let outcome = config_path_in(home);
        proof {
            if let Some(dir) = known {
                assert(outcome->Ok_0@ == config_file_in(dir));
            }
        }
        outcome
    }

    /// A store without profiles.
    pub fn new() -> (config: Config)
        ensures
            config.names() == Seq::<Seq<char>>::empty(),
            config.profiles() == Map::<Seq<char>, HostConfigView>::empty(),
    {
        let config = Config { entries: Vec::new() };
        assert(config.names() =~= Seq::<Seq<char>>::empty());
        assert(config.profiles() =~= Map::<Seq<char>, HostConfigView>::empty());
        config
    }

    /// The store that holds the entries of a list, stored one after the other.
    pub fn from_entries(entries: Vec<(String, HostConfig)>) -> (config: Config)
        ensures
            config.profiles() == stored_profiles(entry_views(entries@)),
            config.names() == stored_names(entry_views(entries@)),
    {
        let mut config = Config::new();
        let ghost all = entry_views(entries@);
        for entry in it: entries
            invariant
                entry_views(it.seq()) == all,
                config.profiles() == stored_profiles(all.take(it.index())),
                config.names() == stored_names(all.take(it.index())),
        {
            let (alias, profile) = entry;
            proof {
                assert(all[it.index()] == (alias@, profile@));
                assert(all.take(it.index() + 1).drop_last() =~= all.take(it.index()));
            }
            config.set_host_config(alias, profile);
        }
        assert(all.take(all.len() as int) =~= all);
        config
    }

    /// The store that was read from the configuration file: the one that holds
    /// the file's entries, or `NotFound` where there is no file.
    pub fn loaded(
        found: Option<Vec<(String, HostConfig)>>,
    ) -> (outcome: Result<Config, ConfigError>)
        ensures
            match found {
                Some(entries) => {
                    &&& outcome matches Ok(config)
                    &&& config.profiles() == stored_profiles(entry_views(entries@))
                    &&& config.names() == stored_names(entry_views(entries@))
                },
                None => outcome matches Err(error) && error == ConfigError::NotFound,
            },
    {
        match found {
            Some(entries) => Ok(Config::from_entries(entries)),
            None => Err(ConfigError::NotFound),
        }
    }

    /// Where `alias` stands among the entries, if it is a profile's name.
    fn position(&self, alias: &str) -> (found: Option<usize>)
        ensures
            match found {
                Some(i) => i < self.entries@.len() && self.entries@[i as int].0@ == alias@,
                None => !self.names().contains(alias@),
            },
    {
        let key = alias.to_owned();
        let mut i: usize = 0;
        while i < self.entries.len()
            invariant
                i <= self.entries.len(),
                key@ == alias@,
                forall|j: int| 0 <= j < i ==> self.names()[j] != alias@,
            decreases self.entries.len() - i,
        {
            if self.entries[i].0 == key {
                return Some(i);
            }
            i += 1;
        }
        None
    }

    /// Moves the entries out and leaves the store empty.
    fn take_entries(&mut self) -> (entries: Vec<(String, HostConfig)>)
        ensures
            entries == old(self).entries,
            final(self).entries@.len() == 0,
    {
        let mut taken = Config { entries: Vec::new() };
        std::mem::swap(self, &mut taken);
        taken.entries
    }

    /// The profile stored under `alias`, if there is one.
    pub fn get_host_config(&self, alias: &str) -> (found: Option<&HostConfig>)
        ensures
            match found {
                Some(profile) => self.profiles().contains_key(alias@) && profile@
                    == self.profiles()[alias@],
                None => !self.profiles().contains_key(alias@),
            },
    {
        proof {
            use_type_invariant(self);
        }
        match self.position(alias) {
            Some(i) => {
                proof {
                    lemma_entry_lookup(self.entries@, i as int);
                }
                Some(&self.entries[i].1)
            },
            None => None,
        }
    }

    /// The number of profiles.
    pub fn len(&self) -> (count: usize)
        ensures
            count == self.names().len(),
    {
        self.entries.len()
    }

    /// Whether the store holds no profile.
    pub fn is_empty(&self) -> (empty: bool)
        ensures
            empty == (self.names().len() == 0),
    {
        self.entries.len() == 0
    }

    /// The name and the profile at place `index` of the store's order.
    pub fn entry(&self, index: usize) -> (found: Option<(&str, &HostConfig)>)
        ensures
            match found {
                Some((name, profile)) => index < self.names().len() && (name@, profile@)
                    == self.listed()[index as int],
                None => index >= self.names().len(),
            },
    {
        proof {
            use_type_invariant(self);
        }
        if index < self.entries.len() {
            proof {
                lemma_entry_lookup(self.entries@, index as int);
            }
            Some((self.entries[index].0.as_str(), &self.entries[index].1))
        } else {
            None
        }
    }

    /// A copy of the store's entries, in the store's order.
    pub fn entries(&self) -> (list: Vec<(String, HostConfig)>)
        ensures
            entry_views(list@) == self.listed(),
    {
        proof {
            use_type_invariant(self);
        }
        let mut list: Vec<(String, HostConfig)> = Vec::new();
        let mut i: usize = 0;
        while i < self.entries.len()
            invariant
                i <= self.entries.len(),
                self.names().no_duplicates(),
                entry_views(list@) == self.listed().take(i as int),
            decreases self.entries.len() - i,
        {
            proof {
                lemma_entry_lookup(self.entries@, i as int);
            }
            let ghost before = list@;
            let name = self.entries[i].0.clone();
            let profile = self.entries[i].1.clone();
            list.push((name, profile));
            assert(entry_views(list@) =~= entry_views(before).push((name@, profile@)));
            assert(self.listed().take(i + 1) =~= self.listed().take(i as int).push(
                self.listed()[i as int],
            ));
            i += 1;
        }
        assert(self.listed().take(i as int) =~= self.listed());
        list
    }

    /// Stores `profile` under `alias`. A profile already stored under that name is
    /// replaced and keeps its place; a new name goes to the end.
    pub fn set_host_config(&mut self, alias: String, profile: HostConfig)
        ensures
            final(self).profiles() == old(self).profiles().insert(alias@, profile@),
            final(self).names() == if old(self).names().contains(alias@) {
                old(self).names()
            } else {
                old(self).names().push(alias@)
            },
    {
        proof {
            use_type_invariant(&*self);
        }
        let place = self.position(alias.as_str());
        let mut entries = self.take_entries();
        let ghost was = entries@;
        match place {
            Some(i) => {
                entries.remove(i);
                entries.insert(i, (alias, profile));
                proof {
                    assert(entries@ =~= was.update(i as int, (alias, profile)));
                    assert(names_of(was)[i as int] == alias@);
                    lemma_entry_put(was, entries@, Some(i as int), (alias, profile));
                }
            },
            None => {
                entries.push((alias, profile));
                proof {
                    lemma_entry_put(was, entries@, None, (alias, profile));
                }
            },
        }
        *self = Config { entries };
    }

    /// Takes the profile named `alias` out of the store and says whether there was
    /// one. The other profiles keep their order.
    pub fn remove_host(&mut self, alias: &str) -> (removed: bool)
        ensures
            removed == old(self).profiles().contains_key(alias@),
            final(self).profiles() == old(self).profiles().remove(alias@),
            final(self).names() == if removed {
                old(self).names().remove(old(self).names().index_of(alias@))
            } else {
                old(self).names()
            },
    {
        proof {
            use_type_invariant(&*self);
        }
        match self.position(alias) {
            Some(i) => {
                let mut entries = self.take_entries();
                proof {
                    lemma_entry_taken(entries@, i as int);
                }
                entries.remove(i);
                *self = Config { entries };
                true
            },
            None => {
                assert(!self.profiles().contains_key(alias@));
                assert(self.profiles().remove(alias@) =~= self.profiles());
                false
            },
        }
    }
}

/// How one profile is listed: its name, then a line for each of its values,
/// then an empty line.
pub open spec fn profile_listing(name: Seq<char>, profile: HostConfigView) -> Seq<char> {
    name + "\n"@ + "    Host:           "@ + profile.host + "\n"@ + "    Base directory: "@
        + profile.base_dir + "\n"@ + "    Default branch: "@ + profile.default_branch + "\n"@
        + "    SSH key path:   "@ + match profile.ssh_key {
        Some(key) => key,
        None => "None"@,
    } + "\n"@ + "\n"@
}

/// The profiles of these names, listed one after the other.
pub open spec fn profiles_listing(
    names: Seq<Seq<char>>,
    profiles: Map<Seq<char>, HostConfigView>,
) -> Seq<char>
    decreases names.len(),
{
    if names.len() == 0 {
        Seq::empty()
    } else {
        profiles_listing(names.drop_last(), profiles) + profile_listing(
            names.last(),
            profiles[names.last()],
        )
    }
}

/// What is shown of a store: its profiles under a heading, or the advice to
/// configure one where there is none.
pub open spec fn listing(
    names: Seq<Seq<char>>,
    profiles: Map<Seq<char>, HostConfigView>,
) -> Seq<char> {
    if names.len() == 0 {
        "No host profiles found. Run `repo-man configure` to add one.\n"@
    } else {
        "Configured hosts:\n\n"@ + profiles_listing(names, profiles)
    }
}

/// The text that lists one profile.
fn list_profile(name: &str, profile: &HostConfig) -> (text: String)
    ensures
        text@ == profile_listing(name@, profile@),
{
    let mut text = name.to_owned();
    text.append("\n");
    text.append("    Host:           ");
    text.append(profile.host.as_str());
    text.append("\n");
    text.append("    Base directory: ");
    text.append(profile.base_dir.as_str());
    text.append("\n");
    text.append("    Default branch: ");
    text.append(profile.default_branch.as_str());
    text.append("\n");
    text.append("    SSH key path:   ");
    match &profile.ssh_key {
        Some(key) => text.append(key.as_str()),
        None => text.append("None"),
    }
    text.append("\n");
    text.append("\n");
    text
}

/// The text that shows the store: every profile in the store's order, or the
/// advice to configure one.
pub fn list_hosts(config: &Config) -> (text: String)
    ensures
        text@ == listing(config.names(), config.profiles()),
{
    proof {
        use_type_invariant(config);
    }
    if config.entries.len() == 0 {
        return "No host profiles found. Run `repo-man configure` to add one.\n".to_owned();
    }
    let mut text = "Configured hosts:\n\n".to_owned();
    let mut i: usize = 0;
    while i < config.entries.len()
        invariant
            i <= config.entries.len(),
            config.names().no_duplicates(),
            text@ == "Configured hosts:\n\n"@ + profiles_listing(
                config.names().take(i as int),
                config.profiles(),
            ),
        decreases config.entries.len() - i,
    {
        let name = &config.entries[i].0;
        let profile = &config.entries[i].1;
        proof {
            lemma_entry_lookup(config.entries@, i as int);
            assert(config.names().take(i + 1).drop_last() =~= config.names().take(i as int));
            assert(config.names().take(i + 1).last() == name@);
        }
        text.append(list_profile(name.as_str(), profile).as_str());
        i += 1;
    }
    assert(config.names().take(i as int) =~= config.names());
    text
}

/// What is said after a profile was to be deleted.
pub open spec fn deletion_message(name: Seq<char>, removed: bool) -> Seq<char> {
    if removed {
        "Host profile "@ + name + " has been deleted."@
    } else {
        "Host profile "@ + name + " not found."@
    }
}

/// What came of deleting a profile.
#[derive(Debug, PartialEq, Eq)]
pub struct Deletion {
    /// Whether the store held the profile, and so has changed.
    pub removed: bool,
    /// What to tell the user.
    pub message: String,
}

/// Takes the profile named `profile_name` out of the store, if it is there, and
/// says what happened. The store needs saving only where it has changed.
pub fn delete_host(config: &mut Config, profile_name: &str) -> (deletion: Deletion)
    ensures
        deletion.removed == old(config).profiles().contains_key(profile_name@),
        deletion.message@ == deletion_message(profile_name@, deletion.removed),
        final(config).profiles() == old(config).profiles().remove(profile_name@),
        final(config).names() == if deletion.removed {
            old(config).names().remove(old(config).names().index_of(profile_name@))
        } else {
            old(config).names()
        },
{
    let removed = config.remove_host(profile_name);
    let mut message = "Host profile ".to_owned();
    message.append(profile_name);
    if removed {
        message.append(" has been deleted.");
    } else {
        message.append(" not found.");
    }
    Deletion { removed, message }
}

} // verus!
