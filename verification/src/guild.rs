//! Guild configuration records and the Guild Config Accessor interface.
//!
//! The accessor is the document store's idempotent get-or-create, consumed
//! but not owned by the resolution core: it loads a guild's configuration
//! record unchanged, or creates the default record on first reference to a
//! guild, keeping exactly one record per guild identifier.
//! [`MemoryGuildStore`] is a verified in-memory implementation for tests and
//! local use.

use vstd::hash_map::HashMapWithView;
use vstd::prelude::*;

use crate::error::Error;

verus! {

broadcast use vstd::std_specs::hash::group_hash_axioms;

/// Configuration sub-record of a guild.
#[derive(Debug, Clone, Copy, PartialEq, Eq)]
pub struct GuildConfig {
    /// Channel that receives moderation logs, if one was configured.
    pub moderation_channel: Option<u64>,
    /// Whether moderators must attach a reason to each sanction.
    pub enforce_reason: bool,
}

/// The configuration created on first reference to a guild.
pub open spec fn default_config() -> GuildConfig {
    GuildConfig { moderation_channel: None, enforce_reason: false }
}

impl Default for GuildConfig {
    fn default() -> (c: Self)
        ensures
            c == default_config(),
    {
        GuildConfig { moderation_channel: None, enforce_reason: false }
    }
}

/// A guild's configuration record: the guild identifier together with its
/// configuration.
#[derive(Debug, Clone, Copy, PartialEq, Eq)]
pub struct Guild {
    /// Identifier of the guild.
    pub id: u64,
    /// The guild's configuration.
    pub config: GuildConfig,
}

/// Interface to the document store's idempotent get-or-create of guild
/// configuration records.
pub trait GuildConfigAccessor {
    /// The configuration records currently stored, keyed by guild id.
    spec fn configs(&self) -> Map<u64, GuildConfig>;

    /// How many get-or-create calls have been made against this accessor.
    spec fn calls(&self) -> nat;

    /// Whether this accessor promises that every get-or-create succeeds. An
    /// in-memory store does; an accessor standing for a store that can be
    /// unreachable does not.
    spec fn infallible(&self) -> bool;

    /// Loads the record for `guild_id`, creating the default record on
    /// first reference; never duplicates or alters an existing record. On
    /// failure reports `DependencyError` and leaves the records unchanged.
    fn get_or_create(&mut self, guild_id: u64) -> (r: Result<Guild, Error>)
        ensures
            final(self).calls() == old(self).calls() + 1,
            final(self).infallible() == old(self).infallible(),
            old(self).infallible() ==> r is Ok,
            match r {
                Ok(g) => {
                    &&& g.id == guild_id
                    &&& (old(self).configs().contains_key(guild_id) ==> (g.config == old(
                        self,
                    ).configs()[guild_id] && final(self).configs() == old(self).configs()))
                    &&& (!old(self).configs().contains_key(guild_id) ==> (g.config
                        == default_config() && final(self).configs() == old(
                        self,
                    ).configs().insert(guild_id, default_config())))
                },
                Err(e) => e is DependencyError && final(self).configs() == old(self).configs(),
            },
    ;
}

/// In-memory implementation of the Guild Config Accessor. It never fails,
/// and it counts its get-or-create calls so that callers can state how
/// often they invoke the accessor.
pub struct MemoryGuildStore {
    records: HashMapWithView<u64, GuildConfig>,
    calls: Ghost<nat>,
}

impl MemoryGuildStore {
    /// Creates an empty store: no records, no calls made yet, and no call
    /// can ever fail.
    pub fn new() -> (s: Self)
        ensures
            s.configs() == Map::<u64, GuildConfig>::empty(),
            s.calls() == 0,
            s.infallible(),
    {
        MemoryGuildStore { records: HashMapWithView::new(), calls: Ghost(0) }
    }
}

/// An accessor whose store is unreachable: every get-or-create fails with
/// `DependencyError`. It lets callers exercise the failure path — and shows
/// that private resolutions succeed without the store, since they never
/// invoke it.
pub struct UnavailableGuildStore {
    calls: Ghost<nat>,
}

impl UnavailableGuildStore {
    /// Creates the unreachable accessor.
    pub fn new() -> (s: Self)
        ensures
            s.calls() == 0,
            !s.infallible(),
    {
        UnavailableGuildStore { calls: Ghost(0) }
    }
}

impl GuildConfigAccessor for UnavailableGuildStore {
    closed spec fn configs(&self) -> Map<u64, GuildConfig> {
        Map::empty()
    }

    closed spec fn calls(&self) -> nat {
        self.calls@
    }

    closed spec fn infallible(&self) -> bool {
        false
    }

    fn get_or_create(&mut self, guild_id: u64) -> (r: Result<Guild, Error>)
        ensures
            r is Err,
    {
        self.calls = Ghost(self.calls@ + 1);
        Err(Error::DependencyError)
    }
}

impl GuildConfigAccessor for MemoryGuildStore {
    closed spec fn configs(&self) -> Map<u64, GuildConfig> {
        self.records@
    }

    closed spec fn calls(&self) -> nat {
        self.calls@
    }

    closed spec fn infallible(&self) -> bool {
        true
    }

    fn get_or_create(&mut self, guild_id: u64) -> (r: Result<Guild, Error>)
        ensures
            r is Ok,
    {
        self.calls = Ghost(self.calls@ + 1);
        match self.records.get(&guild_id) {
            Some(config) => Ok(Guild { id: guild_id, config: *config }),
            None => {
                let config = GuildConfig::default();
                self.records.insert(guild_id, config);
                Ok(Guild { id: guild_id, config })
            },
        }
    }
}

} // verus!
