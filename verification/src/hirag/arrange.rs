//! Putting context items in order: best first, or newest first.

use vstd::prelude::*;
use crate::hirag::models::Context;

verus! {

/// The order that items are put in.
#[derive(Debug, Clone, Copy, PartialEq, Eq, Structural)]
pub enum ArrangeBy {
    /// Higher relevance first; of equal relevance, the later written first.
    Relevance,
    /// The later written first.
    Newest,
}

/// `a` may stand before `b`: it is not worse.
pub open spec fn not_after(by: ArrangeBy, a: Context, b: Context) -> bool {
    match by {
        ArrangeBy::Relevance => a.relevance_score > b.relevance_score || (a.relevance_score
            == b.relevance_score && a.timestamp >= b.timestamp),
        ArrangeBy::Newest => a.timestamp >= b.timestamp,
    }
}

/// `a` must stand before `b`: it is better.
pub open spec fn before(by: ArrangeBy, a: Context, b: Context) -> bool {
    !not_after(by, b, a)
}

/// Each item may stand before all that follow it.
pub open spec fn in_order(by: ArrangeBy, items: Seq<Context>) -> bool {
    forall|i: int, j: int| 0 <= i < j < items.len() ==> not_after(by, #[trigger] items[i], #[trigger] items[j])
}

/// `places` lists each of the positions `0..n` once.
pub open spec fn lists_each_once(places: Seq<int>, n: nat) -> bool {
    &&& places.len() == n
    &&& forall|k: int| 0 <= k < n ==> 0 <= #[trigger] places[k] < n
    &&& forall|a: int, b: int| 0 <= a < b < n ==> #[trigger] places[a] != #[trigger] places[b]
}

/// `items` holds the items of `source`, the item at `k` being the one that
/// stood at `places[k]`, in order, and items of equal standing in the order
/// in which they stood.
pub open spec fn arranged_from(
    by: ArrangeBy,
    items: Seq<Context>,
    source: Seq<Context>,
    places: Seq<int>,
) -> bool {
    &&& lists_each_once(places, source.len())
    &&& items.len() == source.len()
    &&& forall|k: int| 0 <= k < items.len() ==> #[trigger] items[k] == source[places[k]]
    &&& in_order(by, items)
    &&& forall|a: int, b: int|
        0 <= a < b < items.len() && not_after(by, items[b], items[a]) ==> #[trigger] places[a]
            < #[trigger] places[b]
}

/// `items` is `source` put in order, items of equal standing keeping theirs.
pub open spec fn arranged(by: ArrangeBy, items: Seq<Context>, source: Seq<Context>) -> bool {
    exists|places: Seq<int>| arranged_from(by, items, source, places)
}

/// No two items share an id.
pub open spec fn distinct_ids(items: Seq<Context>) -> bool {
    forall|i: int, j: int|
        0 <= i < j < items.len() ==> (#[trigger] items[i]).id != (#[trigger] items[j]).id
}

/// Putting items in order keeps their ids distinct.
pub proof fn lemma_arranged_distinct(by: ArrangeBy, items: Seq<Context>, source: Seq<Context>)
    requires
        arranged(by, items, source),
        distinct_ids(source),
    ensures
        distinct_ids(items),
{
    let places = choose|places: Seq<int>| arranged_from(by, items, source, places);
    assert forall|i: int, j: int| 0 <= i < j < items.len() implies (#[trigger] items[i]).id != (
    #[trigger] items[j]).id by {
        let p = places[i];
        let q = places[j];
        assert(items[i] == source[p] && items[j] == source[q]);
        if p < q {
            assert(source[p].id != source[q].id);
        } else {
            assert(source[q].id != source[p].id);
        }
    }
}

/// Relevance never rises along items in order of relevance.
pub proof fn lemma_relevance_falls(items: Seq<Context>, i: int, j: int)
    requires
        in_order(ArrangeBy::Relevance, items),
        0 <= i <= j < items.len(),
    ensures
        items[i].relevance_score >= items[j].relevance_score,
{
    if i < j {
        assert(not_after(ArrangeBy::Relevance, items[i], items[j]));
    }
}

fn may_precede(by: ArrangeBy, a: &Context, b: &Context) -> (r: bool)
    ensures
        r == not_after(by, *a, *b),
{
    match by {
        ArrangeBy::Relevance => a.relevance_score > b.relevance_score || (a.relevance_score
            == b.relevance_score && a.timestamp >= b.timestamp),
        ArrangeBy::Newest => a.timestamp >= b.timestamp,
    }
}

/// Puts `contexts` in order. Items of equal standing keep the order in
/// which they came.
pub fn arrange(contexts: Vec<Context>, by: ArrangeBy) -> (items: Vec<Context>)
    ensures
        arranged(by, items@, contexts@),
{
    let mut items: Vec<Context> = Vec::new();
    let ghost mut places: Seq<int> = Seq::empty();
    let ghost source = contexts@;
    for x in it: contexts
        invariant
            it.seq() == source,
            items@.len() == it.index(),
            places.len() == it.index(),
            forall|k: int| 0 <= k < places.len() ==> 0 <= #[trigger] places[k] < it.index(),
            forall|a: int, b: int|
                0 <= a < b < places.len() ==> #[trigger] places[a] != #[trigger] places[b],
            forall|k: int| 0 <= k < items@.len() ==> #[trigger] items@[k] == source[places[k]],
            in_order(by, items@),
            forall|a: int, b: int|
                0 <= a < b < items@.len() && not_after(by, items@[b], items@[a])
                    ==> #[trigger] places[a] < #[trigger] places[b],
    {
        let ghost i = it.index();
        let mut at: usize = items.len();
        while at > 0 && !may_precede(by, &items[at - 1], &x)
            invariant
                at <= items@.len(),
                forall|k: int| at <= k < items@.len() ==> before(by, x, #[trigger] items@[k]),
            decreases at,
        {
            at = at - 1;
        }
        let ghost old_items = items@;
        let ghost old_places = places;
        items.insert(at, x);
        proof {
            places = old_places.insert(at as int, i);
            let new_items = items@;
            assert forall|k: int| 0 <= k < new_items.len() implies #[trigger] new_items[k]
                == source[places[k]] by {
                if k < at {
                    assert(new_items[k] == old_items[k]);
                } else if k > at {
                    assert(new_items[k] == old_items[k - 1]);
                }
            }
            assert forall|a: int, b: int| 0 <= a < b < new_items.len() implies not_after(
                by,
                #[trigger] new_items[a],
                #[trigger] new_items[b],
            ) by {
                let a0 = if a < at { a } else { a - 1 };
                let b0 = if b < at { b } else { b - 1 };
                if a != at && b != at {
                    assert(new_items[a] == old_items[a0] && new_items[b] == old_items[b0]);
                    assert(not_after(by, old_items[a0], old_items[b0]));
                } else if b == at {
                    assert(new_items[a] == old_items[a]);
                    if a < at - 1 {
                        assert(not_after(by, old_items[a], old_items[at - 1]));
                    }
                    assert(not_after(by, old_items[at - 1], x));
                } else {
                    assert(new_items[b] == old_items[b - 1]);
                    assert(before(by, x, old_items[b - 1]));
                }
            }
            assert forall|a: int, b: int|
                0 <= a < b < new_items.len() && not_after(
                    by,
                    new_items[b],
                    new_items[a],
                ) implies #[trigger] places[a] < #[trigger] places[b] by {
                let a0 = if a < at { a } else { a - 1 };
                let b0 = if b < at { b } else { b - 1 };
                if a != at && b != at {
                    assert(new_items[a] == old_items[a0] && new_items[b] == old_items[b0]);
                    assert(places[a] == old_places[a0] && places[b] == old_places[b0]);
                } else if b == at {
                    assert(places[a] == old_places[a]);
                } else {
                    assert(new_items[b] == old_items[b - 1]);
                    assert(before(by, x, old_items[b - 1]));
                }
            }
            assert forall|a: int, b: int| 0 <= a < b < places.len() implies #[trigger] places[a]
                != #[trigger] places[b] by {
                let a0 = if a < at { a } else { a - 1 };
                let b0 = if b < at { b } else { b - 1 };
                if a != at && b != at {
                    assert(places[a] == old_places[a0] && places[b] == old_places[b0]);
                } else if b == at {
                    assert(places[a] == old_places[a]);
                } else {
                    assert(places[b] == old_places[b - 1]);
                }
            }
            assert forall|k: int| 0 <= k < places.len() implies 0 <= #[trigger] places[k] < i
                + 1 by {
                if k < at {
                    assert(places[k] == old_places[k]);
                } else if k > at {
                    assert(places[k] == old_places[k - 1]);
                }
            }
        }
    }
    proof {
        assert(arranged_from(by, items@, source, places));
    }
    items
}

} // verus!
