//! The first tier: the most recent immediate items, held in memory.
//!
//! The items live in a concurrent map of the `dashmap` crate, keyed by id.
//! The cache owns the map, so nothing else writes to it, and it holds at
//! most as many items as its capacity: an insertion beyond that evicts the
//! items written longest ago.

use vstd::prelude::*;
use crate::hirag::arrange::{arrange, arranged_from, distinct_ids, in_order, ArrangeBy};
use crate::hirag::budget::{longest_fit, take_prefix_within};
use crate::hirag::models::Context;

verus! {

/// `dashmap::DashMap`, carried through as it is.
#[verifier::external_type_specification]
#[verifier::external_body]
#[verifier::reject_recursive_types(K)]
#[verifier::reject_recursive_types(V)]
#[verifier::reject_recursive_types(S)]
pub struct ExDashMap<K, V, S>(dashmap::DashMap<K, V, S>);

/// The items that a map holds, by key.
pub uninterp spec fn held(map: dashmap::DashMap<u128, Context>) -> Map<u128, Context>;

/// No items.
pub open spec fn nothing() -> Map<u128, Context> {
    Map::empty()
}

/// `items` are finitely many, and `n` of them.
pub open spec fn counted(items: Map<u128, Context>, n: usize) -> bool {
    items.dom().finite() && items.len() == n
}

/// `ages` lists each key of `items` once, with the timestamp of its item.
pub open spec fn listed_ages(items: Map<u128, Context>, ages: Seq<(u128, i64)>) -> bool {
    &&& forall|i: int|
        0 <= i < ages.len() ==> items.contains_key((#[trigger] ages[i]).0) && items[ages[i].0].timestamp
            == ages[i].1
    &&& forall|i: int, j: int|
        0 <= i < j < ages.len() ==> (#[trigger] ages[i]).0 != (#[trigger] ages[j]).0
    &&& forall|id: u128| #[trigger]
        items.contains_key(id) ==> exists|i: int| 0 <= i < ages.len() && (#[trigger] ages[i]).0 == id
}

/// `pairs` lists each key of `items` once, with its item.
pub open spec fn listed_pairs(items: Map<u128, Context>, pairs: Seq<(u128, Context)>) -> bool {
    &&& forall|i: int|
        0 <= i < pairs.len() ==> items.contains_key((#[trigger] pairs[i]).0) && items[pairs[i].0]
            == pairs[i].1
    &&& forall|i: int, j: int|
        0 <= i < j < pairs.len() ==> (#[trigger] pairs[i]).0 != (#[trigger] pairs[j]).0
    &&& forall|id: u128| #[trigger]
        items.contains_key(id) ==> exists|i: int|
            0 <= i < pairs.len() && (#[trigger] pairs[i]).0 == id
}

/// `DashMap::new`: a map that holds nothing.
#[verifier::external_body]
fn map_new() -> (map: dashmap::DashMap<u128, Context>)
    ensures
        held(map) == nothing(),
{
    dashmap::DashMap::new()
}

/// `DashMap::insert`, with the item's id as its key: the map then holds
/// the item under that key, in the place of what the key held, and all else
/// as before.
#[verifier::external_body]
fn map_insert(map: &mut dashmap::DashMap<u128, Context>, context: Context)
    ensures
        held(*final(map)) == held(*old(map)).insert(context.id, context),
{
    map.insert(context.id, context);
}

/// `DashMap::remove`: the map then holds nothing under the key, and all
/// else as before.
#[verifier::external_body]
fn map_remove(map: &mut dashmap::DashMap<u128, Context>, id: u128)
    ensures
        held(*final(map)) == held(*old(map)).remove(id),
{
    map.remove(&id);
}

/// `DashMap::clear`: the map then holds nothing.
#[verifier::external_body]
fn map_clear(map: &mut dashmap::DashMap<u128, Context>)
    ensures
        held(*final(map)) == nothing(),
{
    map.clear();
}

/// `DashMap::len`: the number of keys of the map, which are finitely many.
#[verifier::external_body]
fn map_len(map: &dashmap::DashMap<u128, Context>) -> (n: usize)
    ensures
        counted(held(*map), n),
{
    map.len()
}

/// `DashMap::iter`, each entry read as its key and its item's timestamp:
/// every key of the map once, in no stated order.
#[verifier::external_body]
fn map_ages(map: &dashmap::DashMap<u128, Context>) -> (ages: Vec<(u128, i64)>)
    ensures
        listed_ages(held(*map), ages@),
{
    let mut ages = Vec::new();
    for entry in map.iter() {
        ages.push((*entry.key(), entry.value().timestamp));
    }
    ages
}

/// `DashMap::iter`, each entry read as its key and a copy of its item:
/// every key of the map once, in no stated order.
#[verifier::external_body]
fn map_pairs(map: &dashmap::DashMap<u128, Context>) -> (pairs: Vec<(u128, Context)>)
    ensures
        listed_pairs(held(*map), pairs@),
{
    let mut pairs = Vec::new();
    for entry in map.iter() {
        pairs.push((*entry.key(), entry.value().clone()));
    }
    pairs
}

/// Every item of `part` is an item of `whole`, under the same key.
pub open spec fn within(part: Map<u128, Context>, whole: Map<u128, Context>) -> bool {
    forall|k: u128| #[trigger] part.contains_key(k) ==> whole.contains_key(k) && part[k] == whole[k]
}

/// `kept` holds the newest of `all`: it holds items of `all` only, as many
/// as there are or as `capacity` allows, and none that was written before an
/// item it does not hold.
pub open spec fn retains_newest(
    all: Map<u128, Context>,
    kept: Map<u128, Context>,
    capacity: usize,
) -> bool {
    &&& all.dom().finite()
    &&& kept.dom().finite()
    &&& within(kept, all)
    &&& kept.len() == if all.len() <= capacity {
        all.len()
    } else {
        capacity as nat
    }
    &&& forall|gone: u128, here: u128|
        all.contains_key(gone) && !kept.contains_key(gone) && #[trigger] kept.contains_key(here)
            ==> (#[trigger] all[gone]).timestamp <= kept[here].timestamp
}

/// `values` lists each item of `items` once.
pub open spec fn lists_items(items: Map<u128, Context>, values: Seq<Context>) -> bool {
    &&& values.len() == items.len()
    &&& distinct_ids(values)
    &&& forall|i: int|
        0 <= i < values.len() ==> items.contains_key((#[trigger] values[i]).id) && items[values[i].id]
            == values[i]
}

/// `found` is what a map of items gives under a budget: its items are put
/// newest first, and taken until the next would exceed `max_tokens`. Which
/// of two items written at the same time comes first is not stated.
pub open spec fn newest_fitting(
    items: Map<u128, Context>,
    max_tokens: usize,
    found: Seq<Context>,
) -> bool {
    exists|all: Seq<Context>|
        lists_items(items, all) && in_order(ArrangeBy::Newest, all) && found == all.take(
            found.len() as int,
        ) && longest_fit(all, found.len() as int, max_tokens as int)
}

/// Keeping the newest, step by step, keeps the newest of all: where `kept`
/// holds the newest of `all`, and `next` holds the newest of `kept` with one
/// more item under a new id, `next` holds the newest of `all` with that
/// item.
pub proof fn lemma_retains_newest_step(
    all: Map<u128, Context>,
    kept: Map<u128, Context>,
    next: Map<u128, Context>,
    context: Context,
    capacity: usize,
)
    requires
        retains_newest(all, kept, capacity),
        retains_newest(kept.insert(context.id, context), next, capacity),
        !all.contains_key(context.id),
    ensures
        retains_newest(all.insert(context.id, context), next, capacity),
{
    broadcast use vstd::set::group_set_axioms, vstd::map::group_map_axioms;

    let more = all.insert(context.id, context);
    let grown = kept.insert(context.id, context);
    assert(!kept.contains_key(context.id));
    assert(more.len() == all.len() + 1);
    assert(grown.len() == kept.len() + 1);
    assert forall|gone: u128, here: u128|
        more.contains_key(gone) && !next.contains_key(gone) && #[trigger] next.contains_key(
            here,
        ) implies (#[trigger] more[gone]).timestamp <= next[here].timestamp by {
        assert(grown.contains_key(here) && grown[here] == next[here]);
        if grown.contains_key(gone) {
            assert(grown[gone] == more[gone]);
        } else {
            assert(all.contains_key(gone) && !kept.contains_key(gone));
            assert(more[gone] == all[gone]);
            // `gone` left earlier, so the cache was full then and is full now:
            // something of `grown` is missing from `next`, and it is no newer.
            assert(kept.len() == capacity) by {
                if all.len() <= capacity {
                    assert(kept.dom().subset_of(all.dom())) by {
                        assert forall|k: u128| kept.dom().contains(k) implies all.dom().contains(
                            k,
                        ) by {
                            assert(kept.contains_key(k));
                        }
                    }
                    vstd::set_lib::lemma_subset_equality(kept.dom(), all.dom());
                    assert(kept.dom().contains(gone));
                }
            }
            assert(next.len() == capacity);
            let missing = choose|k: u128| grown.contains_key(k) && !next.contains_key(k);
            assert(grown.contains_key(missing) && !next.contains_key(missing)) by {
                if forall|k: u128| grown.contains_key(k) ==> next.contains_key(k) {
                    assert forall|k: u128| grown.dom().contains(k) == next.dom().contains(
                        k,
                    ) by {
                        if next.contains_key(k) {
                            assert(grown.contains_key(k));
                        }
                    }
                    assert(grown.dom() =~= next.dom());
                }
            }
            assert(grown[missing].timestamp <= next[here].timestamp);
            if here == context.id {
                // the new item stayed, an item of `kept` left
                assert(kept.contains_key(missing));
                assert(all[gone].timestamp <= kept[missing].timestamp);
            } else {
                assert(kept.contains_key(here));
                assert(all[gone].timestamp <= kept[here].timestamp);
            }
        }
    }
    assert forall|k: u128| #[trigger] next.contains_key(k) implies more.contains_key(k) && next[k]
        == more[k] by {
        assert(grown.contains_key(k) && next[k] == grown[k]);
        if k != context.id {
            assert(kept.contains_key(k));
            assert(all.contains_key(k) && kept[k] == all[k]);
        }
    }
}

/// The items of a sequence by id, a later item in the place of an earlier
/// one of the same id.
pub open spec fn by_id(items: Seq<Context>) -> Map<u128, Context>
    decreases items.len(),
{
    if items.len() == 0 {
        Map::empty()
    } else {
        by_id(items.drop_last()).insert(items.last().id, items.last())
    }
}

/// The ids of the items by id are the ids of the items.
pub proof fn lemma_by_id_keys(items: Seq<Context>, id: u128)
    ensures
        by_id(items).dom().finite(),
        by_id(items).contains_key(id) <==> exists|i: int|
            0 <= i < items.len() && (#[trigger] items[i]).id == id,
    decreases items.len(),
{
    broadcast use vstd::set::group_set_axioms, vstd::map::group_map_axioms;

    if items.len() > 0 {
        let front = items.drop_last();
        lemma_by_id_keys(front, id);
        if by_id(items).contains_key(id) {
            if id == items.last().id {
                assert(items[items.len() - 1].id == id);
            } else {
                let i = choose|i: int| 0 <= i < front.len() && (#[trigger] front[i]).id == id;
                assert(items[i] == front[i]);
            }
        }
        if exists|i: int| 0 <= i < items.len() && (#[trigger] items[i]).id == id {
            let i = choose|i: int| 0 <= i < items.len() && (#[trigger] items[i]).id == id;
            if i < front.len() {
                assert(front[i] == items[i]);
            }
        }
    }
}

/// After any sequence of insertions of items with distinct ids into an
/// empty cache, the cache holds the newest of all the items, as many as its
/// capacity allows: `states[i]` is what the cache holds after the first `i`
/// insertions, each of which keeps the newest of what was held and the item
/// inserted.
pub proof fn lemma_retains_newest_of_all(
    items: Seq<Context>,
    states: Seq<Map<u128, Context>>,
    capacity: usize,
)
    requires
        distinct_ids(items),
        states.len() == items.len() + 1,
        states[0] == Map::<u128, Context>::empty(),
        forall|i: int|
            0 <= i < items.len() ==> retains_newest(
                states[i].insert(items[i].id, items[i]),
                #[trigger] states[i + 1],
                capacity,
            ),
    ensures
        retains_newest(by_id(items), states.last(), capacity),
        states.last().len() <= capacity,
    decreases items.len(),
{
    broadcast use vstd::set::group_set_axioms, vstd::map::group_map_axioms;

    if items.len() == 0 {
        assert(by_id(items) =~= Map::<u128, Context>::empty());
    } else {
        let n = items.len() - 1;
        let front = items.drop_last();
        let before = states.drop_last();
        assert(distinct_ids(front)) by {
            assert forall|i: int, j: int| 0 <= i < j < front.len() implies (#[trigger] front[i]).id != (
            #[trigger] front[j]).id by {
                assert(front[i] == items[i] && front[j] == items[j]);
            }
        }
        assert forall|i: int| 0 <= i < front.len() implies retains_newest(
            before[i].insert(front[i].id, front[i]),
            #[trigger] before[i + 1],
            capacity,
        ) by {
            assert(before[i] == states[i] && before[i + 1] == states[i + 1] && front[i]
                == items[i]);
        }
        lemma_retains_newest_of_all(front, before, capacity);
        assert(before.last() == states[n]);
        assert(states.last() == states[n + 1]);
        lemma_by_id_keys(front, items[n].id);
        assert(!by_id(front).contains_key(items[n].id)) by {
            if exists|i: int| 0 <= i < front.len() && (#[trigger] front[i]).id == items[n].id {
                let i = choose|i: int| 0 <= i < front.len() && (#[trigger] front[i]).id == items[n].id;
                assert(front[i] == items[i]);
                assert(items[i].id != items[n].id);
            }
        }
        lemma_retains_newest_step(by_id(front), states[n], states[n + 1], items[n], capacity);
    }
}

fn oldest(ages: &Vec<(u128, i64)>) -> (at: usize)
    requires
        ages@.len() > 0,
    ensures
        at < ages@.len(),
        forall|i: int| 0 <= i < ages@.len() ==> ages@[at as int].1 <= (#[trigger] ages@[i]).1,
{
    let mut at: usize = 0;
    let mut i: usize = 1;
    while i < ages.len()
        invariant
            at < i <= ages@.len(),
            forall|j: int| 0 <= j < i ==> ages@[at as int].1 <= (#[trigger] ages@[j]).1,
        decreases ages.len() - i,
    {
        if ages[i].1 < ages[at].1 {
            at = i;
        }
        i = i + 1;
    }
    at
}

/// The in-memory tier.
pub struct L1Cache {
    entries: dashmap::DashMap<u128, Context>,
    capacity: usize,
}

impl L1Cache {
    /// The items of the cache, by id.
    pub closed spec fn items(self) -> Map<u128, Context> {
        held(self.entries)
    }

    /// The most items that the cache holds.
    pub closed spec fn capacity(self) -> usize {
        self.capacity
    }

    /// The cache holds finitely many items, no more than its capacity, each
    /// under its own id.
    pub open spec fn wf(self) -> bool {
        &&& self.items().dom().finite()
        &&& self.items().len() <= self.capacity()
        &&& forall|id: u128| #[trigger]
            self.items().contains_key(id) ==> self.items()[id].id == id
    }

    /// An empty cache for at most `capacity` items.
    pub fn new(capacity: usize) -> (cache: Self)
        ensures
            cache.wf(),
            cache.capacity() == capacity,
            cache.items() == Map::<u128, Context>::empty(),
    {
        broadcast use vstd::set::group_set_axioms, vstd::map::group_map_axioms;

        L1Cache { entries: map_new(), capacity }
    }

    /// Number of items held.
    pub fn len(&self) -> (n: usize)
        ensures
            counted(self.items(), n),
    {
        map_len(&self.entries)
    }

    /// Puts an item into the cache, in the place of the item of its id if
    /// there is one, and evicts the items written longest ago until the
    /// cache is within its capacity.
    pub fn insert(&mut self, context: Context)
        requires
            old(self).wf(),
        ensures
            final(self).wf(),
            final(self).capacity() == old(self).capacity(),
            retains_newest(
                old(self).items().insert(context.id, context),
                final(self).items(),
                old(self).capacity(),
            ),
    {
        broadcast use vstd::set::group_set_axioms, vstd::map::group_map_axioms;

        let ghost all = self.items().insert(context.id, context);
        map_insert(&mut self.entries, context);
        let size = map_len(&self.entries);
        if size > self.capacity {
            let mut ages = map_ages(&self.entries);
            let mut excess = size - self.capacity;
            while excess > 0
                invariant
                    self.capacity == old(self).capacity,
                    all.dom().finite(),
                    held(self.entries).dom().finite(),
                    held(self.entries).len() == self.capacity + excess,
                    within(held(self.entries), all),
                    listed_ages(held(self.entries), ages@),
                    forall|gone: u128, here: u128|
                        all.contains_key(gone) && !held(self.entries).contains_key(gone)
                            && #[trigger] held(self.entries).contains_key(here) ==> (
                        #[trigger] all[gone]).timestamp <= held(self.entries)[here].timestamp,
                decreases excess,
            {
                let ghost before = held(self.entries);
                let ghost listing = ages@;
                proof {
                    let some = before.dom().choose();
                    assert(before.contains_key(some));
                }
                let at = oldest(&ages);
                let entry = ages.remove(at);
                map_remove(&mut self.entries, entry.0);
                excess = excess - 1;
                proof {
                    let after = held(self.entries);
                    before.lemma_remove_key_len(entry.0);
                    assert(listing[at as int] == entry);
                    assert forall|i: int| 0 <= i < ages@.len() implies after.contains_key(
                        (#[trigger] ages@[i]).0,
                    ) && after[ages@[i].0].timestamp == ages@[i].1 by {
                        let i0 = if i < at { i } else { i + 1 };
                        assert(ages@[i] == listing[i0]);
                        if i0 < at {
                            assert(listing[i0].0 != listing[at as int].0);
                        } else {
                            assert(listing[at as int].0 != listing[i0].0);
                        }
                    }
                    assert forall|i: int, j: int| 0 <= i < j < ages@.len() implies (
                    #[trigger] ages@[i]).0 != (#[trigger] ages@[j]).0 by {
                        let i0 = if i < at { i } else { i + 1 };
                        let j0 = if j < at { j } else { j + 1 };
                        assert(ages@[i] == listing[i0] && ages@[j] == listing[j0]);
                    }
                    assert forall|id: u128| #[trigger] after.contains_key(id) implies exists|i: int|
                        0 <= i < ages@.len() && (#[trigger] ages@[i]).0 == id by {
                        assert(before.contains_key(id));
                        let i0 = choose|i: int| 0 <= i < listing.len() && (#[trigger] listing[i]).0 == id;
                        let i = if i0 < at { i0 } else { i0 - 1 };
                        assert(ages@[i] == listing[i0]);
                    }
                    assert forall|gone: u128, here: u128|
                        all.contains_key(gone) && !after.contains_key(gone)
                            && #[trigger] after.contains_key(here) implies (#[trigger] all[gone]).timestamp
                        <= after[here].timestamp by {
                        assert(before.contains_key(here));
                        if gone == entry.0 {
                            let h = choose|i: int| 0 <= i < listing.len() && (#[trigger] listing[i]).0 == here;
                            assert(listing[at as int].1 <= listing[h].1);
                            assert(all[gone] == before[gone]);
                        }
                    }
                }
            }
        }
        proof {
            let kept = held(self.entries);
            assert forall|id: u128| #[trigger] kept.contains_key(id) implies kept[id].id == id by {
                assert(all.contains_key(id) && all[id] == kept[id]);
                if id != context.id {
                    assert(old(self).items().contains_key(id));
                }
            }
        }
    }

    /// Takes the item of an id out of the cache, if it is there.
    pub fn remove(&mut self, id: u128)
        requires
            old(self).wf(),
        ensures
            final(self).wf(),
            final(self).capacity() == old(self).capacity(),
            final(self).items() == old(self).items().remove(id),
    {
        broadcast use vstd::set::group_set_axioms, vstd::map::group_map_axioms;

        proof {
            if self.items().contains_key(id) {
                self.items().lemma_remove_key_len(id);
            } else {
                assert(self.items().remove(id) =~= self.items());
            }
        }
        map_remove(&mut self.entries, id);
    }

    /// Takes every item out of the cache.
    pub fn clear(&mut self)
        ensures
            final(self).wf(),
            final(self).capacity() == old(self).capacity(),
            final(self).items() == Map::<u128, Context>::empty(),
    {
        broadcast use vstd::set::group_set_axioms, vstd::map::group_map_axioms;

        map_clear(&mut self.entries);
    }

    /// Copies of all items, in no stated order.
    pub fn snapshot(&self) -> (values: Vec<Context>)
        requires
            self.wf(),
        ensures
            lists_items(self.items(), values@),
    {
        let pairs = map_pairs(&self.entries);
        let n = map_len(&self.entries);
        let ghost listing = pairs@;
        let mut values: Vec<Context> = Vec::new();
        for pair in it: pairs
            invariant
                it.seq() == listing,
                values@.len() == it.index(),
                forall|i: int| 0 <= i < values@.len() ==> #[trigger] values@[i] == listing[i].1,
        {
            values.push(pair.1);
        }
        proof {
            let items = self.items();
            assert forall|i: int| 0 <= i < values@.len() implies items.contains_key(
                (#[trigger] values@[i]).id,
            ) && items[values@[i].id] == values@[i] by {
                assert(items.contains_key(listing[i].0));
                assert(values@[i].id == listing[i].0);
            }
            assert(distinct_ids(values@)) by {
                assert forall|i: int, j: int| 0 <= i < j < values@.len() implies (
                #[trigger] values@[i]).id != (#[trigger] values@[j]).id by {
                    assert(values@[i].id == listing[i].0 && values@[j].id == listing[j].0);
                }
            }
            lemma_listing_len(items, listing);
        }
        values
    }

    /// The newest items whose tokens are within `max_tokens`: the items
    /// are taken newest first until the next would exceed the budget. Which
    /// of two items written at the same time comes first is not stated.
    pub fn newest_within(&self, max_tokens: usize) -> (found: Vec<Context>)
        requires
            self.wf(),
        ensures
            newest_fitting(self.items(), max_tokens, found@),
    {
        let values = self.snapshot();
        let ghost listing = values@;
        let all = arrange(values, ArrangeBy::Newest);
        proof {
            let places = choose|places: Seq<int>|
                arranged_from(ArrangeBy::Newest, all@, listing, places);
            crate::hirag::arrange::lemma_arranged_distinct(ArrangeBy::Newest, all@, listing);
            assert forall|i: int| 0 <= i < all@.len() implies self.items().contains_key(
                (#[trigger] all@[i]).id,
            ) && self.items()[all@[i].id] == all@[i] by {
                assert(all@[i] == listing[places[i]]);
            }
            assert(lists_items(self.items(), all@));
        }
        take_prefix_within(all, max_tokens)
    }
}

/// A listing of a finite map has as many entries as the map has keys.
proof fn lemma_listing_len(items: Map<u128, Context>, pairs: Seq<(u128, Context)>)
    requires
        items.dom().finite(),
        listed_pairs(items, pairs),
    ensures
        pairs.len() == items.len(),
    decreases pairs.len(),
{
    broadcast use vstd::set::group_set_axioms, vstd::map::group_map_axioms;

    if pairs.len() == 0 {
        if items.len() > 0 {
            let some = items.dom().choose();
            assert(items.contains_key(some));
        }
    } else {
        let last = pairs.last();
        let rest = pairs.drop_last();
        let fewer = items.remove(last.0);
        items.lemma_remove_key_len(last.0);
        assert(listed_pairs(fewer, rest)) by {
            assert forall|i: int| 0 <= i < rest.len() implies fewer.contains_key(
                (#[trigger] rest[i]).0,
            ) && fewer[rest[i].0] == rest[i].1 by {
                assert(rest[i] == pairs[i]);
                assert(pairs[i].0 != pairs[pairs.len() - 1].0);
            }
            assert forall|i: int, j: int| 0 <= i < j < rest.len() implies (#[trigger] rest[i]).0 != (
            #[trigger] rest[j]).0 by {
                assert(rest[i] == pairs[i] && rest[j] == pairs[j]);
            }
            assert forall|id: u128| #[trigger] fewer.contains_key(id) implies exists|i: int|
                0 <= i < rest.len() && (#[trigger] rest[i]).0 == id by {
                assert(items.contains_key(id));
                let i = choose|i: int| 0 <= i < pairs.len() && (#[trigger] pairs[i]).0 == id;
                assert(rest[i] == pairs[i]);
            }
        }
        lemma_listing_len(fewer, rest);
    }
}

} // verus!
