//! The values that registration and forwarding work on, and the store
//! that maps identifiers to targets.
//!
//! Instants are whole nanoseconds on a monotonic clock that the caller
//! chooses; a time to live is whole seconds. A deadline is kept in 128
//! bits, so that adding a time to live to an instant never overflows.

use std::collections::HashMap;
use vstd::prelude::*;
use vstd::std_specs::iter::IteratorSpec;

verus! {

broadcast use vstd::std_specs::hash::group_hash_axioms;

/// The number of clock ticks in one second of time to live.
pub const NANOS_PER_SEC: u64 = 1_000_000_000;

/// A request to register `url` for `ttl` seconds.
#[derive(Debug, Clone, PartialEq, Eq)]
pub struct ProxyURL {
    pub url: String,
    pub ttl: u64,
}

/// The answer to a registration: the identifier the target resolves under.
#[derive(Debug, Clone, Copy, PartialEq, Eq)]
pub struct ProxyID {
    pub id: u128,
}

/// A registered target and the instant from which it no longer resolves.
#[derive(Debug, Clone, PartialEq, Eq)]
pub struct Proxy {
    pub url: String,
    pub valid_until: u128,
}

/// The mathematical value of a [`Proxy`].
pub struct ProxyView {
    pub url: Seq<char>,
    pub valid_until: nat,
}

impl View for Proxy {
    type V = ProxyView;

    open spec fn view(&self) -> ProxyView {
        ProxyView { url: self.url@, valid_until: self.valid_until as nat }
    }
}

/// The instant at which a registration made at `now` for `ttl` seconds
/// stops resolving.
pub open spec fn deadline(now: nat, ttl: nat) -> nat {
    now + ttl * (NANOS_PER_SEC as nat)
}

/// Whether `id` resolves at `now`: it is registered and its deadline lies
/// strictly in the future.
pub open spec fn is_live(entries: Map<u128, ProxyView>, id: u128, now: nat) -> bool {
    entries.contains_key(id) && now < entries[id].valid_until
}

/// What `id` resolves to at `now`, if anything. An identifier that was
/// never registered and one whose deadline has passed both give `None`.
pub open spec fn resolve(entries: Map<u128, ProxyView>, id: u128, now: nat) -> Option<Seq<char>> {
    if is_live(entries, id, now) {
        Some(entries[id].url)
    } else {
        None
    }
}

/// The identifiers whose deadline has been reached at `now`.
pub open spec fn expired_ids(entries: Map<u128, ProxyView>, now: nat) -> Set<u128> {
    Set::new(|id: u128| entries.contains_key(id) && entries[id].valid_until <= now)
}

/// The store after a sweep at `now`: every entry whose deadline has been
/// reached is gone, every other entry is untouched.
pub open spec fn pruned(entries: Map<u128, ProxyView>, now: nat) -> Map<u128, ProxyView> {
    entries.remove_keys(expired_ids(entries, now))
}

/// The store of registered targets, keyed by identifier.
///
/// The store owns its entries: a lookup hands out a copy of the target,
/// never a reference into the map.
pub struct Proxies {
    entries: HashMap<u128, Proxy>,
}

impl View for Proxies {
    type V = Map<u128, ProxyView>;

    closed spec fn view(&self) -> Map<u128, ProxyView> {
        self.entries@.map_values(|p: Proxy| p@)
    }
}

impl Proxies {
    /// An empty store.
    pub fn new() -> (store: Proxies)
        ensures
            store@ == Map::<u128, ProxyView>::empty(),
    {
        Proxies { entries: HashMap::new() }
    }

    /// The number of entries held, expired ones that no sweep has removed
    /// yet included.
    pub fn len(&self) -> (n: usize)
        ensures
            n == self@.len(),
            self@.dom().finite(),
    {
        proof {
            assert(self@.dom() =~= self.entries@.dom());
        }
        self.entries.len()
    }

    /// Registers `url` under `id` until `ttl` seconds after `now`. An entry
    /// already held under `id` is replaced.
    pub fn insert(&mut self, id: u128, url: String, ttl: u64, now: u64)
        ensures
            final(self)@ == old(self)@.insert(
                id,
                ProxyView { url: url@, valid_until: deadline(now as nat, ttl as nat) },
            ),
    {
        assert(ttl * NANOS_PER_SEC + now <= u128::MAX) by (nonlinear_arith)
            requires
                ttl <= u64::MAX,
                now <= u64::MAX,
                NANOS_PER_SEC == 1_000_000_000,
        ;
        let valid_until: u128 = now as u128 + ttl as u128 * NANOS_PER_SEC as u128;
        let entry = Proxy { url, valid_until };
        self.entries.insert(id, entry);
        assert(self@ =~= old(self)@.insert(
            id,
            ProxyView { url: url@, valid_until: deadline(now as nat, ttl as nat) },
        ));
    }

    /// The target registered under `id`, if it still resolves at `now`.
    pub fn lookup(&self, id: u128, now: u64) -> (target: Option<String>)
        ensures
            match target {
                Some(url) => resolve(self@, id, now as nat) == Some(url@),
                None => resolve(self@, id, now as nat) is None,
            },
    {
        match self.entries.get(&id) {
            Some(entry) => {
                if (now as u128) < entry.valid_until {
                    Some(entry.url.clone())
                } else {
                    None
                }
            },
            None => None,
        }
    }

    /// Removes every entry whose deadline has been reached at `now` and
    /// says how many were removed.
    pub fn prune(&mut self, now: u64) -> (removed: usize)
        ensures
            final(self)@ == pruned(old(self)@, now as nat),
            removed == expired_ids(old(self)@, now as nat).len(),
            removed == old(self)@.len() - final(self)@.len(),
    {
        let ghost before = self.entries@;
        let ghost keys: Seq<u128> = self.entries.keys().remaining().unref();
        let ghost seen: int = 0;
        let mut expired: Vec<u128> = Vec::new();
        for id in it: self.entries.keys()
            invariant
                self.entries@ == before,
                it.seq().unref() == keys,
                seen == it.index(),
                keys.no_duplicates(),
                keys.to_set() == before.dom(),
                expired@.no_duplicates(),
                forall|j: int|
                    0 <= j < expired@.len() ==> keys.take(seen).contains(#[trigger] expired@[j]),
                forall|j: int|
                    0 <= j < expired@.len() ==> before.contains_key(#[trigger] expired@[j])
                        && before[expired@[j]].valid_until <= now,
                forall|k: int|
                    0 <= k < seen && before[#[trigger] keys[k]].valid_until <= now
                        ==> expired@.contains(keys[k]),
        {
            let gone = match self.entries.get(id) {
                Some(entry) => entry.valid_until <= now as u128,
                None => false,
            };
            if gone {
                let ghost earlier = expired@;
                expired.push(*id);
                assert forall|k: int|
                    0 <= k < seen + 1 && before[#[trigger] keys[k]].valid_until
                        <= now implies expired@.contains(keys[k]) by {
                    if k < seen {
                        let j = choose|j: int| 0 <= j < earlier.len() && earlier[j] == keys[k];
                        assert(expired@[j] == keys[k]);
                    } else {
                        assert(expired@[earlier.len() as int] == keys[k]);
                    }
                }
                assert forall|j: int| 0 <= j < expired@.len() implies keys.take(seen + 1).contains(
                    #[trigger] expired@[j],
                ) by {
                    if j >= earlier.len() {
                        assert(keys.take(seen + 1)[seen] == *id);
                    }
                }
            }
            proof {
                seen = seen + 1;
            }
        }
        proof {
            assert(expired@.to_set() =~= Set::new(
                |id: u128| before.contains_key(id) && before[id].valid_until <= now,
            )) by {
                assert forall|id: u128|
                    before.contains_key(id) && before[id].valid_until <= now implies expired@.contains(
                    id,
                ) by {
                    assert(keys.to_set().contains(id));
                }
            }
        }
        let mut removed: usize = 0;
        while removed < expired.len()
            invariant
                removed <= expired.len(),
                expired@.no_duplicates(),
                self.entries@ == before.remove_keys(expired@.take(removed as int).to_set()),
            decreases expired.len() - removed,
        {
            self.entries.remove(&expired[removed]);
            proof {
                let done = expired@.take(removed as int);
                let next = expired@.take(removed + 1);
                assert(next =~= done + seq![expired@[removed as int]]);
                Seq::lemma_to_set_insert_commutes(done, expired@[removed as int]);
            }
            removed += 1;
        }
        proof {
            assert(expired@.take(removed as int) =~= expired@);
            expired@.unique_seq_to_set();
            lemma_prune_view(before, expired@.to_set(), now as nat);
        }
        removed
    }
}

/// Removing from the stored entries the identifiers whose deadline has been
/// reached gives, seen through the view, the pruned store.
proof fn lemma_prune_view(before: Map<u128, Proxy>, gone: Set<u128>, now: nat)
    requires
        before.dom().finite(),
        gone == Set::new(|id: u128| before.contains_key(id) && before[id].valid_until <= now),
    ensures
        gone == expired_ids(before.map_values(|p: Proxy| p@), now),
        before.remove_keys(gone).map_values(|p: Proxy| p@) == pruned(
            before.map_values(|p: Proxy| p@),
            now,
        ),
        gone.len() == before.map_values(|p: Proxy| p@).len() - pruned(
            before.map_values(|p: Proxy| p@),
            now,
        ).len(),
{
    let view = before.map_values(|p: Proxy| p@);
    assert(view.dom() =~= before.dom());
    assert(gone.subset_of(view.dom()));
    view.lemma_remove_keys_len(gone);
}

} // verus!
