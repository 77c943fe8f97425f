//! Garbage collection of the persisted tiers: items older than the time to
//! live of their tier are searched for and deleted, a bounded number in
//! each cycle.

use vstd::prelude::*;
use crate::error::ContextError;
use crate::json::{json_string, string_text};
use crate::time::unix_now;
use crate::vector_db::models::{Condition, ContextLevel, Filter, SearchParams, SearchResult};
use crate::vector_db::VectorStore;

verus! {

/// Most expired items looked for in one cycle.
pub const GC_SEARCH_LIMIT: usize = 1000;

/// Most ids handed to the index in one deletion.
pub const GC_BATCH_SIZE: usize = 100;

/// The time before which an item has expired: `now` less the time to live,
/// and never below `i64::MIN` or above `i64::MAX`.
pub open spec fn cutoff_of(now: i64, ttl_secs: i64) -> i64 {
    if now - ttl_secs < i64::MIN {
        i64::MIN
    } else if now - ttl_secs > i64::MAX {
        i64::MAX
    } else {
        (now - ttl_secs) as i64
    }
}

/// Whether a filter asks for the items of a tier written at `cutoff` or
/// before: its payload names the tier under `level`, and its `timestamp` is
/// at most the cutoff.
pub open spec fn asks_expired(filter: Filter, level: ContextLevel, cutoff: i64) -> bool {
    &&& filter.must@.len() == 2
    &&& filter.should@.len() == 0
    &&& filter.must_not@.len() == 0
    &&& filter.must@[0] matches Condition::Match { key, value } && key@ == "level"@ && string_text(
        value,
    ) == Some(level.name())
    &&& filter.must@[1] matches Condition::Range { key, gte, lte } && key@ == "timestamp"@ && gte
        is None && lte == Some(cutoff)
}

/// The time before which an item has expired.
pub fn cutoff(now: i64, ttl_secs: i64) -> (at: i64)
    ensures
        at == cutoff_of(now, ttl_secs),
{
    let exact = now as i128 - ttl_secs as i128;
    if exact < i64::MIN as i128 {
        i64::MIN
    } else if exact > i64::MAX as i128 {
        i64::MAX
    } else {
        exact as i64
    }
}

/// The filter for the items of a tier written at `cutoff` or before.
pub fn expiry_filter(level: ContextLevel, cutoff: i64) -> (filter: Filter)
    ensures
        asks_expired(filter, level, cutoff),
{
    Filter::new().must(
        Condition::Match { key: "level".to_owned(), value: json_string(level.as_str().to_owned()) },
    ).must(Condition::Range { key: "timestamp".to_owned(), gte: None, lte: Some(cutoff) })
}

/// Whether `params` are the search for the items of a tier written at
/// `cutoff` or before: a query vector of `vector_size` zeros, since only the
/// filter counts, for at most `GC_SEARCH_LIMIT` results of any similarity,
/// without payload or vector.
pub open spec fn is_expiry_query(
    params: SearchParams,
    vector_size: usize,
    level: ContextLevel,
    cutoff: i64,
) -> bool {
    &&& params.vector@.len() == vector_size
    &&& forall|i: int| 0 <= i < vector_size ==> params.vector@[i] == 0
    &&& params.limit == GC_SEARCH_LIMIT
    &&& params.score_threshold is None
    &&& params.filter matches Some(filter) && asks_expired(filter, level, cutoff)
    &&& !params.with_payload
    &&& !params.with_vector
}

/// The search for the expired items of a tier.
pub fn expiry_query(vector_size: usize, level: ContextLevel, cutoff: i64) -> (params: SearchParams)
    ensures
        is_expiry_query(params, vector_size, level, cutoff),
{
    SearchParams {
        vector: vec![0u32; vector_size],
        limit: GC_SEARCH_LIMIT,
        score_threshold: None,
        filter: Some(expiry_filter(level, cutoff)),
        with_payload: false,
        with_vector: false,
    }
}

/// Number of results that a cycle takes: all, and no more than
/// `GC_SEARCH_LIMIT`.
pub open spec fn taken(found: nat) -> nat {
    if found > GC_SEARCH_LIMIT {
        GC_SEARCH_LIMIT as nat
    } else {
        found
    }
}

/// The ids of the first `GC_SEARCH_LIMIT` search results, in order.
pub fn ids_of(results: &Vec<SearchResult>) -> (ids: Vec<u128>)
    ensures
        ids@.len() == taken(results@.len()),
        forall|i: int| 0 <= i < ids@.len() ==> ids@[i] == (#[trigger] results@[i]).id,
{
    let mut ids: Vec<u128> = Vec::new();
    let mut i: usize = 0;
    while i < results.len() && i < GC_SEARCH_LIMIT
        invariant
            i <= results@.len(),
            i <= GC_SEARCH_LIMIT,
            ids@.len() == i,
            forall|j: int| 0 <= j < i ==> ids@[j] == (#[trigger] results@[j]).id,
        decreases results.len() - i,
    {
        ids.push(results[i].id);
        i = i + 1;
    }
    ids
}

/// The ids from position `from` up to `GC_BATCH_SIZE` further.
pub fn chunk_at(ids: &Vec<u128>, from: usize) -> (chunk: Vec<u128>)
    requires
        from < ids@.len(),
    ensures
        chunk@ == ids@.subrange(
            from as int,
            if from + GC_BATCH_SIZE <= ids@.len() {
                from + GC_BATCH_SIZE
            } else {
                ids@.len() as int
            },
        ),
        0 < chunk@.len() <= GC_BATCH_SIZE,
{
    let end = if ids.len() - from >= GC_BATCH_SIZE {
        from + GC_BATCH_SIZE
    } else {
        ids.len()
    };
    let mut chunk: Vec<u128> = Vec::new();
    let mut i: usize = from;
    while i < end
        invariant
            from <= i <= end <= ids@.len(),
            chunk@ == ids@.subrange(from as int, i as int),
        decreases end - i,
    {
        chunk.push(ids[i]);
        assert(chunk@ =~= ids@.subrange(from as int, i + 1));
        i = i + 1;
    }
    chunk
}

/// Number of chunks that `total` ids are deleted in.
pub open spec fn chunk_count(total: nat) -> nat {
    (total + GC_BATCH_SIZE - 1) as nat / (GC_BATCH_SIZE as nat)
}

/// Number of ids in chunk `k` of `total` ids, the first chunk being chunk
/// zero: `GC_BATCH_SIZE`, but for the last chunk, which holds the rest.
pub open spec fn chunk_len(total: nat, k: nat) -> nat {
    if (k + 1) * GC_BATCH_SIZE <= total {
        GC_BATCH_SIZE as nat
    } else if k * GC_BATCH_SIZE < total {
        (total - k * GC_BATCH_SIZE) as nat
    } else {
        0
    }
}

/// Number of ids, of `total`, in the chunks whose deletion was accepted:
/// `accepted[k]` says whether that of chunk `k` was.
pub open spec fn accepted_ids(total: nat, accepted: Seq<bool>) -> nat
    decreases accepted.len(),
{
    if accepted.len() == 0 {
        0
    } else {
        accepted_ids(total, accepted.drop_last()) + if accepted.last() {
            chunk_len(total, (accepted.len() - 1) as nat)
        } else {
            0
        }
    }
}

/// `deleted` is the count of a deletion of `total` ids in chunks, for some
/// answers of the index to the deletions.
pub open spec fn counts_deleted(total: nat, deleted: usize) -> bool {
    exists|accepted: Seq<bool>|
        accepted.len() == chunk_count(total) && deleted == #[trigger] accepted_ids(total, accepted)
}

/// No more ids are counted as deleted than the chunks answered for hold.
pub proof fn lemma_accepted_ids_bounded(total: nat, accepted: Seq<bool>)
    requires
        accepted.len() <= chunk_count(total),
    ensures
        accepted_ids(total, accepted) <= accepted.len() * GC_BATCH_SIZE,
        accepted_ids(total, accepted) <= total,
    decreases accepted.len(),
{
    if accepted.len() > 0 {
        lemma_accepted_ids_bounded(total, accepted.drop_last());
    }
}

/// The count after the index has answered the deletion of a chunk of
/// `size` ids: the ids of an accepted deletion are counted.
pub fn tally(deleted: usize, size: usize, outcome: &Result<(), ContextError>) -> (count: usize)
    requires
        deleted + size <= usize::MAX,
    ensures
        count == if outcome is Ok {
            deleted + size
        } else {
            deleted as int
        },
{
    match outcome {
        Ok(_) => deleted + size,
        Err(_) => deleted,
    }
}

/// Deletes ids from a collection, `GC_BATCH_SIZE` at a time, and counts
/// the ids of the deletions that the index accepted. A deletion that fails
/// does not stop the others.
pub fn delete_in_chunks<V: VectorStore>(store: &V, collection: &str, ids: &Vec<u128>) -> (deleted:
    usize)
    ensures
        counts_deleted(ids@.len(), deleted),
        deleted <= ids@.len(),
{
    let mut deleted: usize = 0;
    let mut from: usize = 0;
    let ghost total = ids@.len();
    let ghost mut accepted: Seq<bool> = Seq::empty();
    while from < ids.len()
        invariant
            total == ids@.len(),
            from <= total,
            from < total ==> from == accepted.len() * GC_BATCH_SIZE,
            from == total ==> accepted.len() == chunk_count(total),
            accepted.len() <= chunk_count(total),
            deleted == accepted_ids(total, accepted),
            deleted <= from,
        decreases ids@.len() - from,
    {
        let chunk = chunk_at(ids, from);
        let size = chunk.len();
        let outcome = store.delete_points(collection, chunk);
        proof {
            let k = accepted.len();
            assert(size == chunk_len(total, k));
            let next = accepted.push(outcome is Ok);
            assert(next.drop_last() =~= accepted);
            accepted = next;
        }
        deleted = tally(deleted, size, &outcome);
        from = from + size;
    }
    proof {
        lemma_accepted_ids_bounded(total, accepted);
    }
    deleted
}

/// `deleted` is the count of a cycle of the collector: that of a deletion
/// in chunks of the ids that its search gave, of which a cycle takes no
/// more than `GC_SEARCH_LIMIT`.
pub open spec fn cycle_deleted(deleted: usize) -> bool {
    exists|found: nat| found <= GC_SEARCH_LIMIT && #[trigger] counts_deleted(found, deleted)
}

/// `r` is what a cycle of the collector comes to: the failure of its
/// search, or the count of the ids that it deleted.
pub open spec fn swept(r: Result<usize, ContextError>) -> bool {
    match r {
        Err(_) => true,
        Ok(deleted) => cycle_deleted(deleted),
    }
}

/// The garbage collector of the persisted tiers.
pub struct BackgroundTaskManager {
    gc_interval: core::time::Duration,
    l2_ttl_secs: i64,
    l2_collection_name: String,
    l3_collection_name: String,
    vector_size: usize,
}

impl BackgroundTaskManager {
    /// The time between two cycles.
    pub closed spec fn interval(self) -> core::time::Duration {
        self.gc_interval
    }

    /// The time to live of the short-term tier, in seconds.
    pub closed spec fn l2_ttl(self) -> i64 {
        self.l2_ttl_secs
    }

    /// The name of the collection of the short-term tier.
    pub closed spec fn l2_collection(self) -> Seq<char> {
        self.l2_collection_name@
    }

    /// The name of the collection of the long-term tier.
    pub closed spec fn l3_collection(self) -> Seq<char> {
        self.l3_collection_name@
    }

    /// The dimension of the vectors of the index.
    pub closed spec fn vector_size(self) -> usize {
        self.vector_size
    }

    /// A collector for the two collections named.
    pub fn new(
        gc_interval: core::time::Duration,
        l2_ttl_secs: i64,
        l2_collection_name: String,
        l3_collection_name: String,
        vector_size: usize,
    ) -> (manager: Self)
        ensures
            manager.interval() == gc_interval,
            manager.l2_ttl() == l2_ttl_secs,
            manager.l2_collection() == l2_collection_name@,
            manager.l3_collection() == l3_collection_name@,
            manager.vector_size() == vector_size,
    {
        BackgroundTaskManager {
            gc_interval,
            l2_ttl_secs,
            l2_collection_name,
            l3_collection_name,
            vector_size,
        }
    }

    /// The time between two cycles.
    pub fn gc_interval(&self) -> (interval: core::time::Duration)
        ensures
            interval == self.interval(),
    {
        self.gc_interval.clone()
    }

    /// What a cycle on the short-term tier at `now` asks of the index: in
    /// the collection of that tier, the items of the tier written longer
    /// ago than its time to live.
    pub fn l2_target(&self, now: i64) -> (target: (&str, SearchParams))
        ensures
            target.0@ == self.l2_collection(),
            is_expiry_query(
                target.1,
                self.vector_size(),
                ContextLevel::ShortTerm,
                cutoff_of(now, self.l2_ttl()),
            ),
    {
        (
            self.l2_collection_name.as_str(),
            expiry_query(self.vector_size, ContextLevel::ShortTerm, cutoff(now, self.l2_ttl_secs)),
        )
    }

    /// What a cycle on the long-term tier at `now` asks of the index: in
    /// the collection of that tier, the items of the tier written longer
    /// ago than `l3_ttl_secs`.
    pub fn l3_target(&self, l3_ttl_secs: i64, now: i64) -> (target: (&str, SearchParams))
        ensures
            target.0@ == self.l3_collection(),
            is_expiry_query(
                target.1,
                self.vector_size(),
                ContextLevel::LongTerm,
                cutoff_of(now, l3_ttl_secs),
            ),
    {
        (
            self.l3_collection_name.as_str(),
            expiry_query(self.vector_size, ContextLevel::LongTerm, cutoff(now, l3_ttl_secs)),
        )
    }

    /// Finishes a cycle after the index has answered the search: a failure
    /// is handed on; else the ids found, the first `GC_SEARCH_LIMIT` of
    /// them, are deleted from the collection in chunks, and the ids of the
    /// accepted deletions are counted.
    pub fn sweep<V: VectorStore>(
        store: &V,
        collection: &str,
        found: Result<Vec<SearchResult>, ContextError>,
    ) -> (r: Result<usize, ContextError>)
        ensures
            swept(r),
            match found {
                Err(e) => r == Err::<usize, ContextError>(e),
                Ok(results) => r matches Ok(deleted) && counts_deleted(
                    taken(results@.len()),
                    deleted,
                ) && deleted <= taken(results@.len()),
            },
    {
        match found {
            Err(e) => Err(e),
            Ok(results) => {
                let ids = ids_of(&results);
                let deleted = delete_in_chunks(store, collection, &ids);
                let r: Result<usize, ContextError> = Ok(deleted);
                proof {
                    assert(counts_deleted(taken(results@.len()), deleted));
                }
                r
            },
        }
    }

    /// One search of a collection and the deletion of what it gave from
    /// that collection.
    pub fn cleanup<V: VectorStore>(store: &V, collection: &str, params: SearchParams) -> (r: Result<
        usize,
        ContextError,
    >)
        ensures
            swept(r),
    {
        let found = store.search(collection, params);
        Self::sweep(store, collection, found)
    }

    /// Deletes the items of the short-term tier that are older than its
    /// time to live, at most `GC_SEARCH_LIMIT` of them, and gives the number
    /// of ids whose deletion the index accepted. What is asked of the index
    /// is what `l2_target` says for the present time.
    pub fn cleanup_expired_l2_contexts<V: VectorStore>(&self, store: &V) -> (r: Result<
        usize,
        ContextError,
    >)
        ensures
            swept(r),
    {
        let (collection, params) = self.l2_target(unix_now());
        Self::cleanup(store, collection, params)
    }

    /// Deletes the items of the long-term tier that are older than
    /// `l3_ttl_secs`, at most `GC_SEARCH_LIMIT` of them, and gives the number
    /// of ids whose deletion the index accepted. What is asked of the index
    /// is what `l3_target` says for the present time.
    pub fn cleanup_expired_l3_contexts<V: VectorStore>(&self, store: &V, l3_ttl_secs: i64) -> (r:
        Result<usize, ContextError>)
        ensures
            swept(r),
    {
        let (collection, params) = self.l3_target(l3_ttl_secs, unix_now());
        Self::cleanup(store, collection, params)
    }

    /// The count of a cycle: what it deleted, and nothing after a failure.
    pub fn cycle_count(outcome: Result<usize, ContextError>) -> (deleted: usize)
        ensures
            deleted == match outcome {
                Ok(count) => count,
                Err(_) => 0,
            },
    {
        match outcome {
            Ok(deleted) => deleted,
            Err(_) => 0,
        }
    }

    /// One cycle of the collector on the short-term tier. A failure is the
    /// end of the cycle, not of the collector: the next cycle tries again.
    pub fn run_l2_gc<V: VectorStore>(&self, store: &V) -> (deleted: usize)
        ensures
            cycle_deleted(deleted),
            deleted <= GC_SEARCH_LIMIT,
    {
        let outcome = self.cleanup_expired_l2_contexts(store);
        let deleted = Self::cycle_count(outcome);
        proof {
            if outcome is Err {
                assert(chunk_count(0) == 0);
                assert(accepted_ids(0, Seq::<bool>::empty()) == 0);
                assert(counts_deleted(0, 0usize));
            }
            let found = choose|found: nat|
                found <= GC_SEARCH_LIMIT && #[trigger] counts_deleted(found, deleted);
            let accepted = choose|accepted: Seq<bool>|
                accepted.len() == chunk_count(found) && deleted == #[trigger] accepted_ids(
                    found,
                    accepted,
                );
            lemma_accepted_ids_bounded(found, accepted);
        }
        deleted
    }
}

} // verus!
