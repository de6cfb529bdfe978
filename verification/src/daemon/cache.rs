//! Cache of command results with a time-to-live.
//!
//! Entries are keyed by the text of the command that produced them and
//! expire once more time than the time-to-live has passed since they were
//! stored. Times are milliseconds on a monotonic clock read by the
//! caller.

use vstd::prelude::*;
use vstd::hash_map::StringHashMap;
use crate::cli::Commands;
use crate::command_text::{command_text, commands_text};

verus! {

/// A cached result and when it was stored.
pub struct CacheEntry {
    pub value: String,
    /// Milliseconds on the caller's monotonic clock.
    pub inserted_at: u64,
}

/// The time elapsed from `since` to `now` (none when the clock reads
/// earlier than `since`).
pub open spec fn elapsed(since: u64, now: u64) -> nat {
    if now >= since {
        (now - since) as nat
    } else {
        0
    }
}

/// An entry stored at `since` has expired at `now`.
pub open spec fn expired(since: u64, now: u64, ttl: u64) -> bool {
    elapsed(since, now) > ttl
}

impl CacheEntry {
    /// An entry holding `value`, stored at `now`.
    pub fn new(value: String, now: u64) -> (r: Self)
        ensures
            r.value@ == value@,
            r.inserted_at == now,
    {
        CacheEntry { value, inserted_at: now }
    }

    /// Whether more than `ttl` has passed since the entry was stored.
    pub fn is_expired(&self, now: u64, ttl: u64) -> (r: bool)
        ensures
            r == expired(self.inserted_at, now, ttl),
    {
        let elapsed = if now >= self.inserted_at {
            now - self.inserted_at
        } else {
            0
        };
        elapsed > ttl
    }
}

/// What the cache holds: for each key, the value and when it was stored.
pub type CacheMap = Map<Seq<char>, (Seq<char>, u64)>;

/// The texts of a list of keys.
pub open spec fn key_texts(keys: Seq<String>) -> Seq<Seq<char>> {
    keys.map_values(|k: String| k@)
}

/// An entry taken by its value and when it was stored.
pub open spec fn entry_view(e: CacheEntry) -> (Seq<char>, u64) {
    (e.value@, e.inserted_at)
}

/// What a lookup of `k` at time `now` answers.
pub open spec fn cache_lookup(m: CacheMap, k: Seq<char>, now: u64, ttl: u64) -> Option<Seq<char>> {
    if m.contains_key(k) && !expired(m[k].1, now, ttl) {
        Some(m[k].0)
    } else {
        None
    }
}

/// The entries of `m` still live at `now`.
pub open spec fn live_at(m: CacheMap, now: u64, ttl: u64) -> CacheMap {
    Map::new(|k: Seq<char>| m.contains_key(k) && !expired(m[k].1, now, ttl), |k: Seq<char>| m[k])
}

/// Results of expensive commands, each valid for `ttl` milliseconds.
pub struct Cache {
    entries: StringHashMap<CacheEntry>,
    /// Every key of `entries` (and perhaps some removed since), so that
    /// the entries can be walked.
    keys: Vec<String>,
    ttl: u64,
}

impl View for Cache {
    type V = CacheMap;

    closed spec fn view(&self) -> CacheMap {
        self.entries@.map_values(|e: CacheEntry| entry_view(e))
    }
}

impl Cache {
    #[verifier::type_invariant]
    closed spec fn wf(self) -> bool {
        forall|k: Seq<char>| #[trigger] self.entries@.contains_key(k) ==> key_texts(self.keys@).contains(k)
    }

    /// The time-to-live in milliseconds.
    pub closed spec fn time_to_live(&self) -> u64 {
        self.ttl
    }

    /// An empty cache whose entries live five minutes.
    pub fn new() -> (r: Self)
        ensures
            r@ == CacheMap::empty(),
            r.time_to_live() == 300_000,
    {
        Self::with_ttl(300_000)
    }

    /// An empty cache whose entries live `ttl` milliseconds.
    pub fn with_ttl(ttl: u64) -> (r: Self)
        ensures
            r@ == CacheMap::empty(),
            r.time_to_live() == ttl,
    {
        let r = Cache { entries: StringHashMap::new(), keys: Vec::new(), ttl };
        assert(r@ =~= CacheMap::empty());
        r
    }

    /// The value stored under `key`, unless it has expired at `now`.
    pub fn get_by_key(&self, key: &str, now: u64) -> (r: Option<String>)
        ensures
            match r {
                Some(v) => cache_lookup(self@, key@, now, self.time_to_live()) == Some(v@),
                None => cache_lookup(self@, key@, now, self.time_to_live()) is None,
            },
    {
        match self.entries.get(key) {
            Some(e) => {
                if e.is_expired(now, self.ttl) {
                    None
                } else {
                    Some(e.value.clone())
                }
            },
            None => None,
        }
    }

    /// Stores `value` under `key` at `now`, replacing what was there.
    pub fn set_by_key(&mut self, key: String, value: String, now: u64)
        ensures
            final(self)@ == old(self)@.insert(key@, (value@, now)),
            final(self).time_to_live() == old(self).time_to_live(),
    {
        let ttl = self.ttl;
        let mut taken = Cache { entries: StringHashMap::new(), keys: Vec::new(), ttl };
        std::mem::swap(self, &mut taken);
        proof {
            use_type_invariant(&taken);
        }
        let Cache { mut entries, mut keys, ttl: _ } = taken;
        if !entries.contains_key(key.as_str()) {
            let ghost before = keys@;
            keys.push(key.clone());
            proof {
                assert(key_texts(keys@) =~= key_texts(before).push(key@));
                assert forall|k: Seq<char>| key_texts(before).contains(k) implies key_texts(
                    keys@,
                ).contains(k) by {
                    let i = choose|i: int| 0 <= i < key_texts(before).len() && key_texts(before)[i] == k;
                    assert(key_texts(keys@)[i] == k);
                }
                assert(key_texts(keys@)[before.len() as int] == key@);
            }
        }
        let entry = CacheEntry::new(value, now);
        let ghost ev = entry_view(entry);
        let ghost k = key@;
        entries.insert(key, entry);
        *self = Cache { entries, keys, ttl };
        assert(self@ =~= old(self)@.insert(k, ev));
    }

    /// Forgets every entry.
    pub fn clear(&mut self)
        ensures
            final(self)@ == CacheMap::empty(),
            final(self).time_to_live() == old(self).time_to_live(),
    {
        *self = Cache { entries: StringHashMap::new(), keys: Vec::new(), ttl: self.ttl };
        assert(self@ =~= CacheMap::empty());
    }

    /// Drops the entries that have expired at `now`.
    pub fn cleanup(&mut self, now: u64)
        ensures
            final(self)@ == live_at(old(self)@, now, old(self).time_to_live()),
            final(self).time_to_live() == old(self).time_to_live(),
    {
        proof {
            use_type_invariant(&*self);
        }
        let ghost before = self.entries@;
        let ttl = self.ttl;
        let mut live: StringHashMap<CacheEntry> = StringHashMap::new();
        let mut live_keys: Vec<String> = Vec::new();
        let mut i: usize = 0;
        while i < self.keys.len()
            invariant
                i <= self.keys@.len(),
                ttl == self.ttl,
                before == self.entries@,
                forall|k: Seq<char>| #[trigger] before.contains_key(k) ==> key_texts(self.keys@).contains(k),
                forall|k: Seq<char>| #[trigger] live@.contains_key(k) ==> key_texts(live_keys@).contains(k),
                forall|k: Seq<char>| #[trigger] live@.contains_key(k) <==> (before.contains_key(k)
                    && !expired(before[k].inserted_at, now, ttl) && key_texts(self.keys@).take(
                    i as int,
                ).contains(k)),
                forall|k: Seq<char>| #[trigger] live@.contains_key(k) ==> entry_view(live@[k]) == entry_view(before[k]),
            decreases self.keys@.len() - i,
        {
            let ghost texts = key_texts(self.keys@);
            assert(texts.take(i + 1) =~= texts.take(i as int).push(texts[i as int]));
            assert forall|x: Seq<char>| #[trigger] texts.take(i + 1).contains(x) <==> (texts.take(
                i as int,
            ).contains(x) || x == texts[i as int]) by {
                if texts.take(i as int).contains(x) {
                    let j = choose|j: int| 0 <= j < texts.take(i as int).len() && #[trigger] texts.take(i as int)[j] == x;
                    assert(texts.take(i + 1)[j] == x);
                }
                if x == texts[i as int] {
                    assert(texts.take(i + 1)[i as int] == x);
                }
                if texts.take(i + 1).contains(x) {
                    let j = choose|j: int| 0 <= j < texts.take(i + 1).len() && #[trigger] texts.take(i + 1)[j] == x;
                    if j < i {
                        assert(texts.take(i as int)[j] == x);
                    }
                }
            }
            let k = &self.keys[i];
            assert(texts[i as int] == k@);
            match self.entries.get(k.as_str()) {
                Some(e) => {
                    if !e.is_expired(now, ttl) {
                        let ghost lk = live_keys@;
                        let copy = CacheEntry { value: e.value.clone(), inserted_at: e.inserted_at };
                        live.insert(k.clone(), copy);
                        live_keys.push(k.clone());
                        assert(key_texts(live_keys@) =~= key_texts(lk).push(k@));
                        assert forall|x: Seq<char>| key_texts(lk).contains(x) implies key_texts(
                            live_keys@,
                        ).contains(x) by {
                            let j = choose|j: int| 0 <= j < key_texts(lk).len() && key_texts(lk)[j] == x;
                            assert(key_texts(live_keys@)[j] == x);
                        }
                        assert(key_texts(live_keys@)[lk.len() as int] == k@);
                    }
                },
                None => {},
            }
            i += 1;
        }
        proof {
            assert(key_texts(self.keys@).take(self.keys@.len() as int) =~= key_texts(self.keys@));
        }
        self.entries = live;
        self.keys = live_keys;
        assert(self@ =~= live_at(old(self)@, now, ttl));
    }

    /// The result cached for `command`, unless it has expired at `now`.
    /// Commands are keyed by their text ([`crate::command_text::command_text`]).
    pub fn get(&self, command: &Commands, now: u64) -> (r: Option<String>)
        ensures
            match r {
                Some(v) => cache_lookup(self@, commands_text(*command), now, self.time_to_live()) == Some(v@),
                None => cache_lookup(self@, commands_text(*command), now, self.time_to_live()) is None,
            },
    {
        let key = command_text(command);
        self.get_by_key(key.as_str(), now)
    }

    /// Caches `value` as the result of `command`, stored at `now`.
    pub fn set(&mut self, command: &Commands, value: String, now: u64)
        ensures
            final(self)@ == old(self)@.insert(commands_text(*command), (value@, now)),
            final(self).time_to_live() == old(self).time_to_live(),
    {
        let key = command_text(command);
        self.set_by_key(key, value, now);
    }
}

/// A cached result is read back until it expires: a lookup of the key
/// just stored, at a time when the entry has not expired, gives the
/// stored value; a lookup of another key is unaffected.
pub proof fn lemma_read_after_write(m: CacheMap, k: Seq<char>, v: Seq<char>, stored_at: u64, k2: Seq<char>, now: u64, ttl: u64)
    ensures
        !expired(stored_at, now, ttl) ==> cache_lookup(m.insert(k, (v, stored_at)), k, now, ttl) == Some(v),
        expired(stored_at, now, ttl) ==> cache_lookup(m.insert(k, (v, stored_at)), k, now, ttl) is None,
        k2 != k ==> cache_lookup(m.insert(k, (v, stored_at)), k2, now, ttl) == cache_lookup(m, k2, now, ttl),
{
}

/// Cleaning up at a time changes no lookup made at that time, and a
/// cleared cache answers nothing.
pub proof fn lemma_cleanup_invisible(m: CacheMap, k: Seq<char>, now: u64, ttl: u64)
    ensures
        cache_lookup(live_at(m, now, ttl), k, now, ttl) == cache_lookup(m, k, now, ttl),
        cache_lookup(CacheMap::empty(), k, now, ttl) is None,
{
}

} // verus!
