//! Client profiles: the credentials of the clusters that the user has named.

use vstd::prelude::*;

verus! {

/// The name of the directory that holds the configuration file, below the
/// user's configuration directory.
pub const CONFIG_DIR_NAME: &'static str = "menmos";

/// A client profile containing credentials to a menmos cluster.
#[derive(Clone, Debug, PartialEq, Eq)]
pub struct Profile {
    pub host: String,
    pub username: String,
    pub password: String,
}

/// Why a profile could not be had.
#[derive(Clone, Debug, PartialEq, Eq)]
pub enum ConfigError {
    /// The configuration has no profile of this name.
    MissingProfile { name: String },
}

/// The map that a list of named profiles denotes: a later profile for a name
/// replaces an earlier one.
pub open spec fn profiles_view(v: Seq<(String, Profile)>) -> Map<Seq<char>, Profile>
    decreases v.len(),
{
    if v.len() == 0 {
        Map::empty()
    } else {
        profiles_view(v.drop_last()).insert(v.last().0@, v.last().1)
    }
}

/// A client configuration, as stored on disk.
#[derive(Clone, Debug, Default)]
pub struct Config {
    /// The configuration profiles set by the user, each with its name, in
    /// the order they were added. A later profile for a name replaces an
    /// earlier one.
    pub profiles: Vec<(String, Profile)>,
}

impl View for Config {
    type V = Map<Seq<char>, Profile>;

    open spec fn view(&self) -> Map<Seq<char>, Profile> {
        profiles_view(self.profiles@)
    }
}

impl Config {
    /// Files `profile` under `name`, in place of what `name` had before.
    pub fn add(&mut self, name: &str, profile: Profile)
        ensures
            final(self)@ == old(self)@.insert(name@, profile),
    {
        self.profiles.push((name.to_owned(), profile));
        assert(self.profiles@.drop_last() =~= old(self).profiles@);
    }
}

/// The profile that `config` has under the name `profile`.
pub fn load_profile_from_config(config: &Config, profile: &str) -> (r: Result<Profile, ConfigError>)
    ensures
        match r {
            Ok(found) => config@.contains_key(profile@) && found == config@[profile@],
            Err(ConfigError::MissingProfile { name }) => !config@.contains_key(profile@) && name@
                == profile@,
        },
{
    let wanted = profile.to_owned();
    let mut i = config.profiles.len();
    while i > 0
        invariant
            i <= config.profiles@.len(),
            wanted@ == profile@,
            forall|k: int| i <= k < config.profiles@.len() ==> config.profiles@[k].0@ != wanted@,
        decreases i,
    {
        i = i - 1;
        if config.profiles[i].0 == wanted {
            proof {
                lemma_profile_last(config.profiles@, wanted@, i as int);
            }
            let found = &config.profiles[i].1;
            return Ok(
                Profile {
                    host: found.host.clone(),
                    username: found.username.clone(),
                    password: found.password.clone(),
                },
            );
        }
    }
    proof {
        lemma_profile_absent(config.profiles@, wanted@);
    }
    Err(ConfigError::MissingProfile { name: wanted })
}

proof fn lemma_profile_last(profiles: Seq<(String, Profile)>, name: Seq<char>, at: int)
    requires
        0 <= at < profiles.len(),
        profiles[at].0@ == name,
        forall|k: int| at < k < profiles.len() ==> profiles[k].0@ != name,
    ensures
        profiles_view(profiles).contains_key(name),
        profiles_view(profiles)[name] == profiles[at].1,
    decreases profiles.len(),
{
    if at < profiles.len() - 1 {
        lemma_profile_last(profiles.drop_last(), name, at);
    }
}

proof fn lemma_profile_absent(profiles: Seq<(String, Profile)>, name: Seq<char>)
    requires
        forall|k: int| 0 <= k < profiles.len() ==> profiles[k].0@ != name,
    ensures
        !profiles_view(profiles).contains_key(name),
    decreases profiles.len(),
{
    if profiles.len() > 0 {
        lemma_profile_absent(profiles.drop_last(), name);
    }
}

} // verus!
