//! The token-account existence cache: account handles known to exist, each
//! with its insertion time, so creation instructions are not emitted twice.
//!
//! A maintenance pass evicts entries older than a TTL, forcing a fresh
//! on-chain check the next time the account is touched; entries inside the
//! TTL are never removed.

use vstd::prelude::*;

use crate::bytes::{bytes_eq, clone_bytes};

verus! {

/// One cached account handle.
pub struct CacheEntry {
    /// The account's identity bytes.
    pub key: Vec<u8>,
    /// When the entry was confirmed, on the caller's clock.
    pub stamp_ms: u64,
}

/// The cache: a set of handles with insertion stamps.
pub struct AccountExistenceCache {
    entries: Vec<CacheEntry>,
}

/// Some entry carries this key.
pub open spec fn has_key(s: Seq<(Seq<u8>, u64)>, k: Seq<u8>) -> bool {
    exists|i: int| 0 <= i < s.len() && s[i].0 == k
}

/// What an insert does: nothing when the key is already present, else a new
/// entry stamped `now`.
pub open spec fn insert_model(s: Seq<(Seq<u8>, u64)>, k: Seq<u8>, now_ms: u64) -> Seq<
    (Seq<u8>, u64),
> {
    if has_key(s, k) {
        s
    } else {
        s.push((k, now_ms))
    }
}

/// What a maintenance pass leaves: exactly the entries still inside the TTL,
/// in order.
pub open spec fn evict_model(s: Seq<(Seq<u8>, u64)>, now_ms: u64, ttl_ms: u64) -> Seq<
    (Seq<u8>, u64),
>
    decreases s.len(),
{
    if s.len() == 0 {
        Seq::empty()
    } else {
        let rest = evict_model(s.drop_last(), now_ms, ttl_ms);
        if s.last().1 + ttl_ms >= now_ms {
            rest.push(s.last())
        } else {
            rest
        }
    }
}

/// An entry survives a maintenance pass exactly when it was there before and
/// its stamp is still inside the TTL.
pub proof fn lemma_evict_model_contains(
    s: Seq<(Seq<u8>, u64)>,
    now_ms: u64,
    ttl_ms: u64,
    p: (Seq<u8>, u64),
)
    ensures
        evict_model(s, now_ms, ttl_ms).contains(p) <==> s.contains(p) && p.1 + ttl_ms >= now_ms,
    decreases s.len(),
{
    if s.len() > 0 {
        lemma_evict_model_contains(s.drop_last(), now_ms, ttl_ms, p);
        assert(s.contains(p) <==> s.drop_last().contains(p) || s.last() == p) by {
            if s.contains(p) {
                let i = choose|i: int| 0 <= i < s.len() && s[i] == p;
                if i < s.len() - 1 {
                    assert(s.drop_last()[i] == p);
                }
            }
            if s.drop_last().contains(p) {
                let i = choose|i: int| 0 <= i < s.drop_last().len() && s.drop_last()[i] == p;
                assert(s[i] == p);
            }
        }
        let e = evict_model(s, now_ms, ttl_ms);
        let rest = evict_model(s.drop_last(), now_ms, ttl_ms);
        if s.last().1 + ttl_ms >= now_ms {
            assert(e.contains(p) <==> rest.contains(p) || s.last() == p) by {
                if e.contains(p) {
                    let i = choose|i: int| 0 <= i < e.len() && e[i] == p;
                    if i < e.len() - 1 {
                        assert(rest[i] == p);
                    }
                }
                if rest.contains(p) {
                    let i = choose|i: int| 0 <= i < rest.len() && rest[i] == p;
                    assert(e[i] == p);
                }
                if s.last() == p {
                    assert(e[e.len() - 1] == p);
                }
            }
        }
    }
}

/// Law: a handle looked up right after its insert is present; and once its
/// TTL has elapsed, a maintenance pass evicts it, so the lookup reports it
/// absent and forces a fresh check.
pub proof fn law_cache_insert_ttl(s: Seq<(Seq<u8>, u64)>, k: Seq<u8>, t_ms: u64, now_ms: u64, ttl_ms: u64)
    requires
        !has_key(s, k),
        t_ms + ttl_ms < now_ms,
    ensures
        has_key(insert_model(s, k, t_ms), k),
        !has_key(evict_model(insert_model(s, k, t_ms), now_ms, ttl_ms), k),
{
    let s1 = insert_model(s, k, t_ms);
    assert(s1[s.len() as int].0 == k);
    let e = evict_model(s1, now_ms, ttl_ms);
    if has_key(e, k) {
        let i = choose|i: int| 0 <= i < e.len() && e[i].0 == k;
        lemma_evict_model_contains(s1, now_ms, ttl_ms, e[i]);
        let j = choose|j: int| 0 <= j < s1.len() && s1[j] == e[i];
        if j < s.len() {
            assert(has_key(s, k));
        }
    }
}

impl View for AccountExistenceCache {
    type V = Seq<(Seq<u8>, u64)>;

    closed spec fn view(&self) -> Seq<(Seq<u8>, u64)> {
        self.entries@.map_values(|e: CacheEntry| (e.key@, e.stamp_ms))
    }
}

impl AccountExistenceCache {
    /// An empty cache: every first touch of an account will check on chain.
    pub fn new() -> (c: AccountExistenceCache)
        ensures
            c@ == Seq::<(Seq<u8>, u64)>::empty(),
    {
        let c = AccountExistenceCache { entries: Vec::new() };
        proof {
            assert(c@ =~= Seq::<(Seq<u8>, u64)>::empty());
        }
        c
    }

    /// Pure membership test.
    pub fn contains(&self, key: &Vec<u8>) -> (r: bool)
        ensures
            r == has_key(self@, key@),
    {
        let mut idx: usize = 0;
        while idx < self.entries.len()
            invariant
                idx <= self.entries.len(),
                forall|t: int| 0 <= t < idx ==> (#[trigger] self@[t]).0 != key@,
            decreases self.entries.len() - idx,
        {
            if bytes_eq(&self.entries[idx].key, key) {
                assert(self@[idx as int].0 == key@);
                return true;
            }
            idx = idx + 1;
        }
        false
    }

    /// Record a handle confirmed to exist. Re-inserting a known key keeps
    /// its original stamp; a new key is stamped `now_ms`.
    pub fn insert(&mut self, key: Vec<u8>, now_ms: u64)
        ensures
            final(self)@ == insert_model(old(self)@, key@, now_ms),
            has_key(final(self)@, key@),
    {
        if !self.contains(&key) {
            let ghost before = self@;
            let ghost k = key@;
            self.entries.push(CacheEntry { key, stamp_ms: now_ms });
            proof {
                assert(self@ =~= before.push((k, now_ms)));
                assert(self@[before.len() as int].0 == k);
            }
        }
    }

    /// Maintenance pass: drop every entry whose stamp is more than the TTL
    /// in the past, keep every younger one untouched.
    pub fn evict_expired(&mut self, now_ms: u64, ttl_ms: u64)
        ensures
            final(self)@ == evict_model(old(self)@, now_ms, ttl_ms),
    {
        let ghost before = self@;
        let mut kept: Vec<CacheEntry> = Vec::new();
        let mut idx: usize = 0;
        while idx < self.entries.len()
            invariant
                idx <= self.entries.len(),
                before == self.entries@.map_values(|e: CacheEntry| (e.key@, e.stamp_ms)),
                kept@.map_values(|e: CacheEntry| (e.key@, e.stamp_ms)) == evict_model(
                    before.take(idx as int),
                    now_ms,
                    ttl_ms,
                ),
            decreases self.entries.len() - idx,
        {
            let ghost prefix = before.take(idx as int);
            let ghost kview = kept@.map_values(|e: CacheEntry| (e.key@, e.stamp_ms));
            let e = &self.entries[idx];
            let keep = now_ms <= e.stamp_ms || now_ms - e.stamp_ms <= ttl_ms;
            if keep {
                kept.push(CacheEntry { key: clone_bytes(&e.key), stamp_ms: e.stamp_ms });
                proof {
                    assert(kept@.map_values(|e: CacheEntry| (e.key@, e.stamp_ms)) =~= kview.push(
                        before[idx as int],
                    ));
                }
            }
            proof {
                assert(before.take(idx + 1 as int).drop_last() =~= prefix);
                assert(before.take(idx + 1 as int).last() == before[idx as int]);
            }
            idx = idx + 1;
        }
        self.entries = kept;
        proof {
            assert(before.take(before.len() as int) =~= before);
        }
    }

    /// How many handles the cache holds.
    pub fn len(&self) -> (n: usize)
        ensures
            n == self@.len(),
    {
        self.entries.len()
    }
}

} // verus!
