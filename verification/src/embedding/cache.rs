//! The embedding cache: vectors by the fingerprint of their text.
//!
//! The entries live in a cache of the `moka` crate, which discards an entry
//! once it has been held for the time to live, once it has not been read
//! for half of that, or when the cache is over its capacity. When an entry
//! goes is moka's matter, so this module states only what holds whenever it
//! goes: the cache answers with nothing but what was put into it.

use vstd::prelude::*;

verus! {

/// `moka::sync::Cache`, carried through as it is.
#[verifier::external_type_specification]
#[verifier::external_body]
#[verifier::reject_recursive_types(K)]
#[verifier::reject_recursive_types(V)]
#[verifier::reject_recursive_types(S)]
pub struct ExMokaCache<K, V, S>(moka::sync::Cache<K, V, S>);

/// The entries that a cache may still answer with, by key.
pub uninterp spec fn live(cache: moka::sync::Cache<String, Vec<u32>>) -> Map<Seq<char>, Seq<u32>>;

/// No entries.
pub open spec fn no_entries() -> Map<Seq<char>, Seq<u32>> {
    Map::empty()
}

/// Every entry of `part` is an entry of `whole`.
pub open spec fn among(part: Map<Seq<char>, Seq<u32>>, whole: Map<Seq<char>, Seq<u32>>) -> bool {
    forall|k: Seq<char>| #[trigger] part.contains_key(k) ==> whole.contains_key(k) && part[k] == whole[k]
}

/// `found` is an answer to a lookup of `key` in `entries`: nothing, or the
/// vector under the key.
pub open spec fn answer_of(
    entries: Map<Seq<char>, Seq<u32>>,
    key: Seq<char>,
    found: Option<Vec<u32>>,
) -> bool {
    found matches Some(vector) ==> entries.contains_key(key) && entries[key] == vector@
}

/// The longest time to live that a cache takes, in seconds: a thousand
/// years.
pub const MAX_TTL_SECS: u64 = 31_536_000_000;

/// `Cache::builder`, `max_capacity`, `time_to_live`, `time_to_idle` and
/// `build`, the two times given in milliseconds: a cache without entries.
/// The builder panics on a time over a thousand years, which is left out.
#[verifier::external_body]
fn cache_new(max_capacity: u64, time_to_live_ms: u64, time_to_idle_ms: u64) -> (cache:
    moka::sync::Cache<String, Vec<u32>>)
    requires
        time_to_live_ms <= MAX_TTL_SECS * 1000,
        time_to_idle_ms <= MAX_TTL_SECS * 1000,
    ensures
        live(cache) == no_entries(),
{
    moka::sync::Cache::builder()
        .max_capacity(max_capacity)
        .time_to_live(core::time::Duration::from_millis(time_to_live_ms))
        .time_to_idle(core::time::Duration::from_millis(time_to_idle_ms))
        .build()
}

/// `Cache::get`: a copy of the vector under the key, or nothing. An entry
/// may have gone by the time it is asked for, so nothing may be the answer
/// for any key; a lookup brings no entry in.
#[verifier::external_body]
fn cache_get(cache: &mut moka::sync::Cache<String, Vec<u32>>, key: &str) -> (found: Option<Vec<u32>>)
    ensures
        answer_of(live(*old(cache)), key@, found),
        among(live(*final(cache)), live(*old(cache))),
{
    cache.get(key)
}

/// `Cache::insert`: the cache then holds the vector under the key, unless
/// it has discarded it already, and no other entry that it did not hold.
#[verifier::external_body]
fn cache_insert(cache: &mut moka::sync::Cache<String, Vec<u32>>, key: String, vector: Vec<u32>)
    ensures
        among(live(*final(cache)), live(*old(cache)).insert(key@, vector@)),
{
    cache.insert(key, vector);
}

/// `Cache::invalidate_all`: the entries put in before are discarded, but
/// for one put in at the very moment of the call, which may stay; none comes
/// in.
#[verifier::external_body]
fn cache_invalidate_all(cache: &mut moka::sync::Cache<String, Vec<u32>>)
    ensures
        among(live(*final(cache)), live(*old(cache))),
{
    cache.invalidate_all();
}

/// `Cache::run_pending_tasks`: entries that are due are discarded; none
/// comes in.
#[verifier::external_body]
fn cache_run_pending_tasks(cache: &mut moka::sync::Cache<String, Vec<u32>>)
    ensures
        among(live(*final(cache)), live(*old(cache))),
{
    cache.run_pending_tasks();
}

/// `Cache::entry_count`: an estimate of the number of entries. Nothing is
/// said of it.
#[verifier::external_body]
fn cache_entry_count(cache: &moka::sync::Cache<String, Vec<u32>>) -> u64 {
    cache.entry_count()
}

/// Figures of the embedding cache.
#[derive(Debug, Clone, Copy, PartialEq, Eq, Structural)]
pub struct CacheStats {
    /// An estimate of the number of entries.
    pub size: usize,
    pub hits: u64,
    pub misses: u64,
    /// Hits among all lookups, in millionths.
    pub hit_rate: u32,
}

/// The embedding cache.
pub struct EmbeddingCache {
    cache: moka::sync::Cache<String, Vec<u32>>,
    hits: u64,
    misses: u64,
}

impl EmbeddingCache {
    /// The entries that the cache may still answer with.
    pub closed spec fn entries(self) -> Map<Seq<char>, Seq<u32>> {
        live(self.cache)
    }

    /// Lookups that were answered with a vector, modulo 2^64.
    pub closed spec fn hits(self) -> u64 {
        self.hits
    }

    /// Lookups that were answered with nothing, modulo 2^64.
    pub closed spec fn misses(self) -> u64 {
        self.misses
    }

    /// A cache for at most `max_size` entries, each of which is held for
    /// the whole milliseconds of `ttl` at most, and for half of that at most
    /// without being read. A time to live over `MAX_TTL_SECS` counts as
    /// that.
    pub fn new(max_size: usize, ttl: core::time::Duration) -> (cache: Self)
        ensures
            cache.entries() == no_entries(),
            cache.hits() == 0,
            cache.misses() == 0,
    {
        let asked = ttl.as_millis();
        let time_to_live_ms: u64 = if asked > (MAX_TTL_SECS * 1000) as u128 {
            MAX_TTL_SECS * 1000
        } else {
            asked as u64
        };
        EmbeddingCache {
            cache: cache_new(max_size as u64, time_to_live_ms, time_to_live_ms / 2),
            hits: 0,
            misses: 0,
        }
    }

    /// The vector under a key, where the cache still holds one.
    pub fn get(&mut self, key: &str) -> (found: Option<Vec<u32>>)
        ensures
            answer_of(old(self).entries(), key@, found),
            among(final(self).entries(), old(self).entries()),
            final(self).hits() == if found is Some {
                old(self).hits().wrapping_add(1)
            } else {
                old(self).hits()
            },
            final(self).misses() == if found is Some {
                old(self).misses()
            } else {
                old(self).misses().wrapping_add(1)
            },
    {
        let found = cache_get(&mut self.cache, key);
        if found.is_some() {
            self.hits = self.hits.wrapping_add(1);
        } else {
            self.misses = self.misses.wrapping_add(1);
        }
        found
    }

    /// Puts a vector under a key, in the place of what the key held.
    pub fn put(&mut self, key: String, embedding: Vec<u32>)
        ensures
            among(final(self).entries(), old(self).entries().insert(key@, embedding@)),
            final(self).hits() == old(self).hits(),
            final(self).misses() == old(self).misses(),
    {
        cache_insert(&mut self.cache, key, embedding);
    }

    /// Lets the cache discard the entries that are due.
    pub fn cleanup(&mut self)
        ensures
            among(final(self).entries(), old(self).entries()),
            final(self).hits() == old(self).hits(),
            final(self).misses() == old(self).misses(),
    {
        cache_run_pending_tasks(&mut self.cache);
    }

    /// Discards the entries: what was put in before is not answered with
    /// again, but for an entry put in at the very moment of the call, which
    /// the cache may keep. No entry comes in.
    pub fn clear(&mut self)
        ensures
            among(final(self).entries(), old(self).entries()),
            final(self).hits() == old(self).hits(),
            final(self).misses() == old(self).misses(),
    {
        cache_invalidate_all(&mut self.cache);
        let ghost between = self.entries();
        cache_run_pending_tasks(&mut self.cache);
        proof {
            assert forall|k: Seq<char>| #[trigger] self.entries().contains_key(k) implies old(
                self,
            ).entries().contains_key(k) && self.entries()[k] == old(self).entries()[k] by {
                assert(between.contains_key(k));
            }
        }
    }

    /// An estimate of the number of entries.
    pub fn size(&mut self) -> (estimate: usize)
        ensures
            among(final(self).entries(), old(self).entries()),
            final(self).hits() == old(self).hits(),
            final(self).misses() == old(self).misses(),
    {
        cache_run_pending_tasks(&mut self.cache);
        let count = cache_entry_count(&self.cache);
        if count > usize::MAX as u64 {
            usize::MAX
        } else {
            count as usize
        }
    }

    /// The figures of the cache: the estimate of its size, and the lookups
    /// answered and not answered since it was made.
    pub fn stats(&mut self) -> (stats: CacheStats)
        ensures
            stats.hits == old(self).hits(),
            stats.misses == old(self).misses(),
            stats.hit_rate == hit_rate_of(old(self).hits(), old(self).misses()),
            among(final(self).entries(), old(self).entries()),
            final(self).hits() == old(self).hits(),
            final(self).misses() == old(self).misses(),
    {
        let size = self.size();
        let total = self.hits as u128 + self.misses as u128;
        let hit_rate = if total == 0 {
            0
        } else {
            assert((self.hits as int) * 1_000_000 / (total as int) <= 1_000_000)
                by (nonlinear_arith)
                requires
                    0 < total,
                    0 <= self.hits as int <= total as int,
            ;
            (self.hits as u128 * 1_000_000 / total) as u32
        };
        CacheStats { size, hits: self.hits, misses: self.misses, hit_rate }
    }
}

/// Hits among all lookups, in millionths, rounded down; zero where there
/// was no lookup.
pub open spec fn hit_rate_of(hits: u64, misses: u64) -> u32 {
    if hits + misses == 0 {
        0
    } else {
        (hits * 1_000_000 / (hits + misses)) as u32
    }
}

} // verus!
