//! The Pending Component Store.
//!
//! [`KvStore`] is the narrow interface to the key-value store: atomic
//! single-key put/get/delete with a per-key expiration instant, driven by a
//! logical clock the caller hands in. [`MemoryKvStore`] is a verified
//! in-memory implementation. [`PendingComponentStore`] layers the component
//! codec and the `pending:component:` key namespace on top: a put serializes
//! the component under the key derived from its identifier with a fixed
//! time-to-live, a get deserializes the record back and treats absence and
//! expiry alike as an empty result.

use vstd::hash_map::StringHashMap;
use vstd::map::*;
use vstd::prelude::*;

use crate::component::{
    decode_component, decode_spec, encode_component, key_spec,
    lemma_codec_round_trip, lemma_key_spec_injective, PendingComponent, StoredRecord,
    EXPIRES_AFTER_SECONDS,
};

verus! {

/// A value held by the key-value store: the serialized record and the
/// instant it expires.
#[derive(Debug, PartialEq, Eq)]
pub struct StoredEntry {
    /// The serialized record.
    pub record: StoredRecord,
    /// The instant from which the entry counts as expired.
    pub expires_at: u64,
}

/// Interface to the key-value store: atomic single-key operations with
/// store-enforced expiry. `now` is the logical clock; an entry is live
/// while `now` is before its expiration instant.
pub trait KvStore {
    /// Every entry currently held, live or expired, by key.
    spec fn entries(&self) -> Map<Seq<char>, StoredEntry>;

    /// Stores `record` under `key` with an expiration of `ttl` measured
    /// from `now`, overwriting any existing entry at that key.
    fn put(&mut self, key: String, record: StoredRecord, ttl: u64, now: u64)
        requires
            now + ttl <= u64::MAX,
        ensures
            final(self).entries() == old(self).entries().insert(
                key@,
                (StoredEntry { record, expires_at: (now + ttl) as u64 }),
            ),
    ;

    /// Looks `key` up: the stored record while it is live, nothing once the
    /// entry is absent or expired.
    fn get<'a>(&'a self, key: &str, now: u64) -> (r: Option<&'a StoredRecord>)
        ensures
            match r {
                Some(record) => self.entries().contains_key(key@) && now
                    < self.entries()[key@].expires_at && *record == self.entries()[key@].record,
                None => !self.entries().contains_key(key@) || self.entries()[key@].expires_at
                    <= now,
            },
    ;

    /// Removes the entry at `key`, if any.
    fn delete(&mut self, key: &str)
        ensures
            final(self).entries() == old(self).entries().remove(key@),
    ;
}

/// Verified in-memory implementation of the key-value store.
pub struct MemoryKvStore {
    map: StringHashMap<StoredEntry>,
}

impl MemoryKvStore {
    /// Creates an empty store.
    pub fn new() -> (s: Self)
        ensures
            s.entries() == Map::<Seq<char>, StoredEntry>::empty(),
    {
        MemoryKvStore { map: StringHashMap::new() }
    }
}

impl KvStore for MemoryKvStore {
    closed spec fn entries(&self) -> Map<Seq<char>, StoredEntry> {
        self.map@
    }

    fn put(&mut self, key: String, record: StoredRecord, ttl: u64, now: u64) {
        self.map.insert(key, StoredEntry { record, expires_at: now + ttl });
    }

    fn get<'a>(&'a self, key: &str, now: u64) -> (r: Option<&'a StoredRecord>) {
        match self.map.get(key) {
            Some(entry) => if now < entry.expires_at {
                Some(&entry.record)
            } else {
                None
            },
            None => None,
        }
    }

    fn delete(&mut self, key: &str) {
        self.map.remove(key);
    }
}

/// The namespaced, TTL-bound cache of pending components, layered over a
/// key-value store.
pub struct PendingComponentStore<S: KvStore> {
    backend: S,
}

impl<S: KvStore> PendingComponentStore<S> {
    /// Well-formedness: every backend entry decodes to a component and is
    /// stored under the key derived from that component's identifier. Puts
    /// are the only writes, so the property is an invariant of the store.
    pub closed spec fn wf(&self) -> bool {
        forall|k: Seq<char>| #[trigger] self.backend.entries().contains_key(k) ==> {
            let record = self.backend.entries()[k].record;
            decode_spec(record) is Some && k == key_spec(decode_spec(record)->0.id_spec())
        }
    }

    /// The pending components by identifier, each with the instant its
    /// record expires.
    pub closed spec fn pending(&self) -> Map<Seq<char>, (PendingComponent, u64)> {
        Map::new(
            |id: Seq<char>| self.backend.entries().contains_key(key_spec(id)),
            |id: Seq<char>|
                {
                    let entry = self.backend.entries()[key_spec(id)];
                    (decode_spec(entry.record)->0, entry.expires_at)
                },
        )
    }

    /// Wraps an empty key-value store.
    pub fn new(backend: S) -> (s: Self)
        requires
            backend.entries() == Map::<Seq<char>, StoredEntry>::empty(),
        ensures
            s.wf(),
            s.pending() == Map::<Seq<char>, (PendingComponent, u64)>::empty(),
    {
        let s = PendingComponentStore { backend };
        proof {
            assert(s.pending() =~= Map::<Seq<char>, (PendingComponent, u64)>::empty());
        }
        s
    }

    /// Serializes `component` under `pending:component:<id>` with an
    /// expiration measured from `now`, overwriting any record stored under
    /// the same identifier — last write wins.
    pub fn put(&mut self, component: PendingComponent, now: u64)
        requires
            old(self).wf(),
            now + EXPIRES_AFTER_SECONDS <= u64::MAX,
        ensures
            final(self).wf(),
            final(self).pending() == old(self).pending().insert(
                component.id_spec(),
                ((component, (now + EXPIRES_AFTER_SECONDS) as u64)),
            ),
    {
        let key = component.key();
        proof {
            lemma_codec_round_trip(component);
        }
        let record = encode_component(component);
        self.backend.put(key, record, EXPIRES_AFTER_SECONDS, now);
        proof {
            let after = final(self).pending();
            let expected = old(self).pending().insert(
                component.id_spec(),
                ((component, (now + EXPIRES_AFTER_SECONDS) as u64)),
            );
            assert_maps_equal!(after, expected, id => {
                if key_spec(id) == key_spec(component.id_spec()) {
                    lemma_key_spec_injective(id, component.id_spec());
                }
            });
        }
    }

    /// Looks the component with identifier `id` up: the stored component
    /// while its record is live; an empty result — not an error — when no
    /// record exists or the record has expired.
    pub fn get(&self, id: &str, now: u64) -> (r: Option<PendingComponent>)
        requires
            self.wf(),
        ensures
            match r {
                Some(c) => self.pending().contains_key(id@) && now < self.pending()[id@].1 && c
                    == self.pending()[id@].0,
                None => !self.pending().contains_key(id@) || self.pending()[id@].1 <= now,
            },
    {
        let key = PendingComponent::key_from(id);
        match self.backend.get(key.as_str(), now) {
            Some(record) => {
                match decode_component(record) {
                    Some(component) => Some(component),
                    None => {
                        // The store invariant rules an undecodable record
                        // out; Verus proves this branch unreachable.
                        proof {
                            assert(false);
                        }
                        None
                    },
                }
            },
            None => None,
        }
    }

    /// Reclaims the record with identifier `id` early, if one exists;
    /// callers may equally let it expire.
    pub fn delete(&mut self, id: &str)
        requires
            old(self).wf(),
        ensures
            final(self).wf(),
            final(self).pending() == old(self).pending().remove(id@),
    {
        let key = PendingComponent::key_from(id);
        self.backend.delete(key.as_str());
        proof {
            let after = final(self).pending();
            let expected = old(self).pending().remove(id@);
            assert_maps_equal!(after, expected, other => {
                if key_spec(other) == key_spec(id@) {
                    lemma_key_spec_injective(other, id@);
                }
            });
        }
    }
}

/// Law: a put followed by a get with the same identifier observes exactly
/// the stored component. After a put of `component` at instant `now`, the
/// store maps the component's identifier to the component itself, and any
/// lookup before the time-to-live elapses finds it live.
pub proof fn lemma_put_then_get<S: KvStore>(
    pre: PendingComponentStore<S>,
    post: PendingComponentStore<S>,
    component: PendingComponent,
    now: u64,
    later: u64,
)
    requires
        now + EXPIRES_AFTER_SECONDS <= u64::MAX,
        post.pending() == pre.pending().insert(
            component.id_spec(),
            ((component, (now + EXPIRES_AFTER_SECONDS) as u64)),
        ),
        later < now + EXPIRES_AFTER_SECONDS,
    ensures
        post.pending().contains_key(component.id_spec()),
        post.pending()[component.id_spec()].0 == component,
        later < post.pending()[component.id_spec()].1,
{
}

/// Law: two puts with the same identifier leave only the second component —
/// the last write wins and the earlier one is lost.
pub proof fn lemma_put_overwrites(
    pending: Map<Seq<char>, (PendingComponent, u64)>,
    first: PendingComponent,
    second: PendingComponent,
    first_expires: u64,
    second_expires: u64,
)
    requires
        first.id_spec() == second.id_spec(),
    ensures
        pending.insert(first.id_spec(), (first, first_expires)).insert(
            second.id_spec(),
            ((second, second_expires)),
        ) == pending.insert(second.id_spec(), (second, second_expires)),
{
    assert(pending.insert(first.id_spec(), (first, first_expires)).insert(
        second.id_spec(),
        ((second, second_expires)),
    ) =~= pending.insert(second.id_spec(), (second, second_expires)));
}

} // verus!
