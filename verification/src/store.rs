//! The configuration store and the two ways to change what it holds: an
//! initial load and a reload.
//!
//! The store holds the one active configuration. Reading the source and
//! decoding credential files are the caller's part: it passes what it read,
//! and what it found out about the credentials, as plain values.

use vstd::prelude::*;
use crate::decode::{decode, source_config};
use crate::errors::ConfigError;
use crate::schema::{Config, ConfigView, default_config};
use crate::validate::{
    Credential, Verdict, default_config_is_valid, structure_ok, validate, verdict,
};

verus! {

/// `config` with `path` as the place that it was read from.
pub open spec fn stamped(config: ConfigView, path: Seq<char>) -> ConfigView {
    ConfigView {
        path,
        general: config.general,
        user: config.user,
        shards: config.shards,
        query_router: config.query_router,
    }
}

/// What a source is to the library: its text, or nothing where it could not
/// be read.
pub open spec fn source_text(source: Option<&str>) -> Option<Seq<char>> {
    match source {
        Some(text) => Some(text@),
        None => None,
    }
}

/// The configuration that a load from `path` accepts: the one that the source
/// writes, stamped with `path`, where the source could be read, writes a
/// configuration, and the validator accepts it. A credential that the
/// configuration needs and that was not tried counts as not decoded.
pub open spec fn accepted(
    path: Seq<char>,
    source: Option<Seq<char>>,
    certificate: Credential,
    private_key: Credential,
) -> Option<ConfigView> {
    match source {
        None => None,
        Some(text) => match source_config(text) {
            None => None,
            Some(config) => if verdict(config, certificate, private_key) == Verdict::Accepted {
                Some(stamped(config, path))
            } else {
                None
            },
        },
    }
}

/// What a reload changed.
#[derive(Clone, Copy, Debug, PartialEq, Eq, Structural)]
pub enum Change {
    /// The new configuration equals the old one.
    Unchanged,
    /// Something changed, but neither the shards nor the user: the connection
    /// pools stay as they are.
    Settings,
    /// The shards or the user changed: the connection pools must be made anew.
    Topology,
}

impl Change {
    /// Whether anything changed.
    pub fn changed(self) -> (changed: bool)
        ensures
            changed == (self != Change::Unchanged),
    {
        match self {
            Change::Unchanged => false,
            _ => true,
        }
    }

    /// Whether the connection pools must be made anew.
    pub fn recreates_pools(self) -> (recreates: bool)
        ensures
            recreates == (self == Change::Topology),
    {
        match self {
            Change::Topology => true,
            _ => false,
        }
    }
}

/// How `new` differs from `old`.
pub open spec fn classify(old: ConfigView, new: ConfigView) -> Change {
    if old.shards != new.shards || old.user != new.user {
        Change::Topology
    } else if old != new {
        Change::Settings
    } else {
        Change::Unchanged
    }
}

/// Says how `new` differs from `old`.
pub fn compare(old: &Config, new: &Config) -> (change: Change)
    ensures
        change == classify(old@, new@),
{
    if !(old.shards == new.shards) || !(old.user == new.user) {
        Change::Topology
    } else if !(*old == *new) {
        Change::Settings
    } else {
        Change::Unchanged
    }
}

/// Holds the active configuration, which always meets the structural rules.
#[derive(Debug)]
pub struct ConfigStore {
    active: Config,
}

impl View for ConfigStore {
    type V = ConfigView;

    closed spec fn view(&self) -> ConfigView {
        self.active@
    }
}

impl ConfigStore {
    #[verifier::type_invariant]
    spec fn holds_checked(&self) -> bool {
        structure_ok(self.active@)
    }

    /// A store that holds the default configuration.
    pub fn new() -> (store: ConfigStore)
        ensures
            store@ == default_config(),
    {
        proof {
            default_config_is_valid();
        }
        ConfigStore { active: Config::default() }
    }

    /// A copy of the active configuration, which no later change of the store
    /// reaches.
    pub fn current(&self) -> (config: Config)
        ensures
            config@ == self@,
            structure_ok(config@),
    {
        proof {
            use_type_invariant(self);
        }
        self.active.clone()
    }

    fn publish(&mut self, config: Config)
        requires
            structure_ok(config@),
        ensures
            final(self)@ == config@,
    {
        self.active = config;
    }
}

impl Clone for ConfigStore {
    fn clone(&self) -> (copy: ConfigStore)
        ensures
            copy@ == self@,
            structure_ok(copy@),
    {
        ConfigStore { active: self.current() }
    }
}

/// Get a read-only instance of the configuration held by `store`.
pub fn get_config(store: &ConfigStore) -> (config: Config)
    ensures
        config@ == store@,
        structure_ok(config@),
{
    store.current()
}

fn load(path: &str, source: Option<&str>, certificate: Credential, private_key: Credential) -> (loaded:
    Result<Config, ConfigError>)
    ensures
        match loaded {
            Ok(config) => accepted(path@, source_text(source), certificate, private_key) == Some(
                config@,
            ) && structure_ok(config@),
            Err(error) => accepted(path@, source_text(source), certificate, private_key) is None,
        },
{
    let text = match source {
        Some(text) => text,
        None => {
            return Err(ConfigError::BadConfig);
        },
    };
    let mut config = decode(text)?;
    match validate(&config, certificate, private_key) {
        Verdict::Accepted => {},
        _ => {
            return Err(ConfigError::BadConfig);
        },
    }
    config.path = String::from_str(path);
    Ok(config)
}

/// Loads the configuration that was read from `path` and makes it the active
/// one. `source` is the text that was read, or nothing where the source could
/// not be read; `certificate` and `private_key` say what is known of the
/// credential files that the source names, as for [`validate`]. On an error
/// the store is as it was.
pub fn parse(
    store: &mut ConfigStore,
    path: &str,
    source: Option<&str>,
    certificate: Credential,
    private_key: Credential,
) -> (outcome: Result<(), ConfigError>)
    ensures
        match accepted(path@, source_text(source), certificate, private_key) {
            Some(config) => outcome is Ok && final(store)@ == config,
            None => outcome is Err && final(store)@ == old(store)@,
        },
{
    let config = load(path, source, certificate, private_key)?;
    store.publish(config);
    Ok(())
}

/// Loads the active configuration's source again. `source` is the text that
/// was read from the path of the active configuration, or nothing where it
/// could not be read; `certificate` and `private_key` are as for [`parse`]. On
/// success the new configuration is the active one, under the same path, and
/// the result says how it differs from the one before. On an error the store
/// is as it was.
pub fn reload_config(
    store: &mut ConfigStore,
    source: Option<&str>,
    certificate: Credential,
    private_key: Credential,
) -> (outcome: Result<Change, ConfigError>)
    ensures
        match accepted(old(store)@.path, source_text(source), certificate, private_key) {
            Some(config) => outcome == Ok::<Change, ConfigError>(classify(old(store)@, config))
                && final(store)@ == config,
            None => outcome is Err && final(store)@ == old(store)@,
        },
{
    let old_config = store.current();
    let new_config = load(old_config.path.as_str(), source, certificate, private_key)?;
    let change = compare(&old_config, &new_config);
    store.publish(new_config);
    Ok(change)
}

/// A source that could not be read is never accepted.
pub proof fn unreadable_source_is_not_accepted(
    path: Seq<char>,
    certificate: Credential,
    private_key: Credential,
)
    ensures
        accepted(path, None, certificate, private_key) is None,
{
}

/// What a load accepts meets the structural rules and carries the path that it
/// was loaded from.
pub proof fn accepted_is_valid(
    path: Seq<char>,
    source: Option<Seq<char>>,
    certificate: Credential,
    private_key: Credential,
)
    requires
        accepted(path, source, certificate, private_key) is Some,
    ensures
        structure_ok(accepted(path, source, certificate, private_key).unwrap()),
        accepted(path, source, certificate, private_key).unwrap().path == path,
{
}

/// Loading the same source again, with the same findings on its credentials,
/// changes nothing: where a load from `path` accepted `config`, a reload of a
/// store that holds `config` accepts `config` again and reports no change.
pub proof fn reload_of_same_source_is_unchanged(
    path: Seq<char>,
    text: Seq<char>,
    certificate: Credential,
    private_key: Credential,
)
    requires
        accepted(path, Some(text), certificate, private_key) is Some,
    ensures
        ({
            let config = accepted(path, Some(text), certificate, private_key).unwrap();
            &&& accepted(config.path, Some(text), certificate, private_key) == Some(config)
            &&& classify(config, config) == Change::Unchanged
        }),
{
}

/// Where the line runs between the three kinds of change: the pools are made
/// anew exactly when the shards or the user differ, a change is reported
/// exactly when anything differs, and so a changed password alone is a change
/// of topology.
pub proof fn change_boundaries(old: ConfigView, new: ConfigView)
    ensures
        classify(old, new) == Change::Topology <==> (old.shards != new.shards || old.user
            != new.user),
        classify(old, new) == Change::Unchanged <==> old == new,
        classify(old, new) == Change::Settings <==> (old != new && old.shards == new.shards
            && old.user == new.user),
        old.user.password != new.user.password ==> classify(old, new) == Change::Topology,
{
}

} // verus!
