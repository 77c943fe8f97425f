//! Selection of context items: one per id, and within a token budget.

use vstd::prelude::*;
use crate::hirag::arrange::{distinct_ids, in_order, not_after, ArrangeBy};
use crate::hirag::models::Context;

verus! {

/// Sum of the token counts of `items`.
pub open spec fn total_tokens(items: Seq<Context>) -> nat
    decreases items.len(),
{
    if items.len() == 0 {
        0
    } else {
        total_tokens(items.drop_last()) + items.last().token_count as nat
    }
}

/// `k` is the length of the longest prefix of `items` whose tokens are
/// within `budget`.
pub open spec fn longest_fit(items: Seq<Context>, k: int, budget: int) -> bool {
    &&& 0 <= k <= items.len()
    &&& total_tokens(items.take(k)) <= budget
    &&& k < items.len() ==> total_tokens(items.take(k + 1)) > budget
}

/// The items of `items` that fit a budget when they are taken one by one:
/// an item is taken where its tokens are within what is left of the budget,
/// and passed over where they are not.
pub open spec fn fit_all(items: Seq<Context>, budget: int) -> Seq<Context>
    decreases items.len(),
{
    if items.len() == 0 {
        Seq::empty()
    } else if items[0].token_count <= budget {
        seq![items[0]] + fit_all(items.drop_first(), budget - items[0].token_count)
    } else {
        fit_all(items.drop_first(), budget)
    }
}

/// Whether the id of the item at `i` occurs before `i`.
pub open spec fn seen_before(items: Seq<Context>, i: int) -> bool {
    exists|j: int| 0 <= j < i && (#[trigger] items[j]).id == items[i].id
}

/// The first item of each id, in the order of `items`.
pub open spec fn first_by_id(items: Seq<Context>) -> Seq<Context>
    decreases items.len(),
{
    if items.len() == 0 {
        Seq::empty()
    } else if seen_before(items, items.len() - 1) {
        first_by_id(items.drop_last())
    } else {
        first_by_id(items.drop_last()).push(items.last())
    }
}

/// Every item of `items` stands somewhere in `source`.
pub open spec fn drawn_from(items: Seq<Context>, source: Seq<Context>) -> bool {
    forall|k: int| 0 <= k < items.len() ==> source.contains(#[trigger] items[k])
}

/// The tokens of items with one more in front are the tokens of that one
/// and of the items.
pub proof fn lemma_total_tokens_prepend(x: Context, rest: Seq<Context>)
    ensures
        total_tokens(seq![x] + rest) == x.token_count + total_tokens(rest),
    decreases rest.len(),
{
    let whole = seq![x] + rest;
    if rest.len() == 0 {
        assert(whole.drop_last() =~= Seq::<Context>::empty());
        assert(total_tokens(whole.drop_last()) == 0);
    } else {
        assert(whole.drop_last() =~= seq![x] + rest.drop_last());
        lemma_total_tokens_prepend(x, rest.drop_last());
    }
}

/// The tokens of a prefix never exceed those of a longer prefix.
pub proof fn lemma_total_tokens_grows(items: Seq<Context>, a: int, b: int)
    requires
        0 <= a <= b <= items.len(),
    ensures
        total_tokens(items.take(a)) <= total_tokens(items.take(b)),
    decreases b - a,
{
    if a < b {
        lemma_total_tokens_grows(items, a, b - 1);
        assert(items.take(b).drop_last() =~= items.take(b - 1));
    }
}

/// There is one longest prefix that fits a budget.
pub proof fn lemma_longest_fit_unique(items: Seq<Context>, k: int, m: int, budget: int)
    requires
        longest_fit(items, k, budget),
        longest_fit(items, m, budget),
    ensures
        k == m,
{
    if k < m {
        lemma_total_tokens_grows(items, k + 1, m);
    } else if m < k {
        lemma_total_tokens_grows(items, m + 1, k);
    }
}

/// What fits a budget is within it.
pub proof fn lemma_fit_all_within(items: Seq<Context>, budget: int)
    requires
        0 <= budget,
    ensures
        total_tokens(fit_all(items, budget)) <= budget,
    decreases items.len(),
{
    if items.len() > 0 {
        if items[0].token_count <= budget {
            let rest = fit_all(items.drop_first(), budget - items[0].token_count);
            lemma_fit_all_within(items.drop_first(), budget - items[0].token_count);
            lemma_total_tokens_prepend(items[0], rest);
        } else {
            lemma_fit_all_within(items.drop_first(), budget);
        }
    }
}

/// What fits a budget is drawn from the items.
pub proof fn lemma_fit_all_drawn(items: Seq<Context>, budget: int)
    ensures
        drawn_from(fit_all(items, budget), items),
    decreases items.len(),
{
    if items.len() > 0 {
        let tail = items.drop_first();
        let b = if items[0].token_count <= budget {
            budget - items[0].token_count
        } else {
            budget
        };
        lemma_fit_all_drawn(tail, b);
        let kept = fit_all(items, budget);
        let rest = fit_all(tail, b);
        assert forall|k: int| 0 <= k < kept.len() implies items.contains(#[trigger] kept[k]) by {
            if items[0].token_count <= budget && k == 0 {
                assert(items[0] == kept[0]);
            } else {
                let k0 = if items[0].token_count <= budget {
                    k - 1
                } else {
                    k
                };
                assert(kept[k] == rest[k0]);
                assert(tail.contains(rest[k0]));
                let j = choose|j: int| 0 <= j < tail.len() && tail[j] == rest[k0];
                assert(items[j + 1] == tail[j]);
            }
        }
    }
}

/// What fits a budget keeps the order of the items.
pub proof fn lemma_fit_all_in_order(by: ArrangeBy, items: Seq<Context>, budget: int)
    requires
        in_order(by, items),
    ensures
        in_order(by, fit_all(items, budget)),
    decreases items.len(),
{
    if items.len() > 0 {
        let tail = items.drop_first();
        let b = if items[0].token_count <= budget {
            budget - items[0].token_count
        } else {
            budget
        };
        assert(in_order(by, tail)) by {
            assert forall|i: int, j: int| 0 <= i < j < tail.len() implies not_after(
                by,
                #[trigger] tail[i],
                #[trigger] tail[j],
            ) by {
                assert(tail[i] == items[i + 1] && tail[j] == items[j + 1]);
            }
        }
        lemma_fit_all_in_order(by, tail, b);
        lemma_fit_all_drawn(tail, b);
        let kept = fit_all(items, budget);
        let rest = fit_all(tail, b);
        assert forall|i: int, j: int| 0 <= i < j < kept.len() implies not_after(
            by,
            #[trigger] kept[i],
            #[trigger] kept[j],
        ) by {
            if items[0].token_count <= budget {
                assert(kept[j] == rest[j - 1]);
                if i == 0 {
                    assert(tail.contains(rest[j - 1]));
                    let p = choose|p: int| 0 <= p < tail.len() && tail[p] == rest[j - 1];
                    assert(items[p + 1] == tail[p]);
                    assert(not_after(by, items[0], items[p + 1]));
                } else {
                    assert(kept[i] == rest[i - 1]);
                }
            }
        }
    }
}

/// What fits a budget keeps the ids distinct.
pub proof fn lemma_fit_all_distinct(items: Seq<Context>, budget: int)
    requires
        distinct_ids(items),
    ensures
        distinct_ids(fit_all(items, budget)),
    decreases items.len(),
{
    if items.len() > 0 {
        let tail = items.drop_first();
        let b = if items[0].token_count <= budget {
            budget - items[0].token_count
        } else {
            budget
        };
        assert(distinct_ids(tail)) by {
            assert forall|i: int, j: int| 0 <= i < j < tail.len() implies (#[trigger] tail[i]).id != (
            #[trigger] tail[j]).id by {
                assert(tail[i] == items[i + 1] && tail[j] == items[j + 1]);
            }
        }
        lemma_fit_all_distinct(tail, b);
        lemma_fit_all_drawn(tail, b);
        let kept = fit_all(items, budget);
        let rest = fit_all(tail, b);
        assert forall|i: int, j: int| 0 <= i < j < kept.len() implies (#[trigger] kept[i]).id != (
        #[trigger] kept[j]).id by {
            if items[0].token_count <= budget {
                assert(kept[j] == rest[j - 1]);
                if i == 0 {
                    assert(tail.contains(rest[j - 1]));
                    let p = choose|p: int| 0 <= p < tail.len() && tail[p] == rest[j - 1];
                    assert(items[p + 1] == tail[p]);
                    assert(items[0].id != items[p + 1].id);
                } else {
                    assert(kept[i] == rest[i - 1]);
                }
            }
        }
    }
}

/// The first items by id are drawn from the items, and every id of the
/// items is the id of one of them.
pub proof fn lemma_first_by_id_drawn(items: Seq<Context>)
    ensures
        drawn_from(first_by_id(items), items),
        forall|i: int|
            0 <= i < items.len() ==> exists|k: int|
                0 <= k < first_by_id(items).len() && first_by_id(items)[k].id == (
                #[trigger] items[i]).id,
    decreases items.len(),
{
    if items.len() > 0 {
        let init = items.drop_last();
        let last = items.last();
        lemma_first_by_id_drawn(init);
        let kept = first_by_id(items);
        let before = first_by_id(init);
        assert forall|k: int| 0 <= k < kept.len() implies items.contains(#[trigger] kept[k]) by {
            if k < before.len() {
                assert(kept[k] == before[k]);
                assert(init.contains(before[k]));
                let j = choose|j: int| 0 <= j < init.len() && init[j] == before[k];
                assert(items[j] == init[j]);
            } else {
                assert(kept[k] == items[items.len() - 1]);
            }
        }
        assert forall|i: int| 0 <= i < items.len() implies exists|k: int|
            0 <= k < kept.len() && kept[k].id == (#[trigger] items[i]).id by {
            if i < init.len() {
                assert(items[i] == init[i]);
                let k = choose|k: int| 0 <= k < before.len() && before[k].id == init[i].id;
                assert(kept[k] == before[k]);
            } else if seen_before(items, items.len() - 1) {
                let j = choose|j: int|
                    0 <= j < items.len() - 1 && (#[trigger] items[j]).id == items[items.len()
                        - 1].id;
                assert(items[j] == init[j]);
                let k = choose|k: int| 0 <= k < before.len() && before[k].id == init[j].id;
                assert(kept[k] == before[k]);
            } else {
                assert(kept[kept.len() - 1] == last);
            }
        }
    }
}

/// The first items by id have distinct ids.
pub proof fn lemma_first_by_id_distinct(items: Seq<Context>)
    ensures
        distinct_ids(first_by_id(items)),
    decreases items.len(),
{
    if items.len() > 0 {
        let init = items.drop_last();
        lemma_first_by_id_distinct(init);
        lemma_first_by_id_drawn(init);
        let kept = first_by_id(items);
        let before = first_by_id(init);
        assert forall|i: int, j: int| 0 <= i < j < kept.len() implies (#[trigger] kept[i]).id != (
        #[trigger] kept[j]).id by {
            assert(kept[i] == before[i]);
            if j < before.len() {
                assert(kept[j] == before[j]);
            } else {
                assert(init.contains(before[i]));
                let p = choose|p: int| 0 <= p < init.len() && init[p] == before[i];
                assert(items[p] == init[p]);
                assert(!seen_before(items, items.len() - 1));
            }
        }
    }
}

/// Keeps the first item of each id, in the order in which the items came.
pub fn deduplicate(contexts: Vec<Context>) -> (kept: Vec<Context>)
    ensures
        kept@ == first_by_id(contexts@),
        distinct_ids(kept@),
{
    let mut kept: Vec<Context> = Vec::new();
    let ghost source = contexts@;
    for x in it: contexts
        invariant
            it.seq() == source,
            kept@ == first_by_id(source.take(it.index())),
    {
        let ghost i = it.index();
        let ghost upto = source.take(i + 1);
        proof {
            assert(upto.drop_last() =~= source.take(i));
            assert(upto.last() == x);
            lemma_first_by_id_drawn(source.take(i));
        }
        let mut seen = false;
        let mut k: usize = 0;
        while k < kept.len()
            invariant
                k <= kept@.len(),
                seen == (exists|j: int| 0 <= j < k && (#[trigger] kept@[j]).id == x.id),
            decreases kept.len() - k,
        {
            if kept[k].id == x.id {
                seen = true;
            }
            k = k + 1;
        }
        proof {
            let before = source.take(i);
            if seen {
                let j = choose|j: int| 0 <= j < kept@.len() && (#[trigger] kept@[j]).id == x.id;
                assert(before.contains(kept@[j]));
                let p = choose|p: int| 0 <= p < before.len() && before[p] == kept@[j];
                assert(upto[p] == before[p]);
                assert(seen_before(upto, i));
            } else {
                if seen_before(upto, i) {
                    let p = choose|p: int| 0 <= p < i && (#[trigger] upto[p]).id == upto[i].id;
                    assert(upto[p] == before[p]);
                    let q = choose|q: int| 0 <= q < kept@.len() && kept@[q].id == before[p].id;
                    assert(false);
                }
            }
        }
        if !seen {
            kept.push(x);
        }
    }
    proof {
        assert(source.take(source.len() as int) =~= source);
        lemma_first_by_id_distinct(source);
    }
    kept
}

/// Keeps the longest prefix of `contexts` whose tokens are within
/// `max_tokens`.
pub fn take_prefix_within(contexts: Vec<Context>, max_tokens: usize) -> (kept: Vec<Context>)
    ensures
        kept@ == contexts@.take(kept@.len() as int),
        longest_fit(contexts@, kept@.len() as int, max_tokens as int),
{
    let mut kept: Vec<Context> = Vec::new();
    let mut total: usize = 0;
    let mut stopped = false;
    let ghost source = contexts@;
    for x in it: contexts
        invariant
            it.seq() == source,
            kept@.len() <= it.index(),
            !stopped ==> kept@.len() == it.index(),
            kept@ == source.take(kept@.len() as int),
            total == total_tokens(kept@),
            total <= max_tokens,
            stopped ==> total_tokens(source.take(kept@.len() as int + 1)) > max_tokens,
    {
        if !stopped && x.token_count <= max_tokens - total {
            proof {
                let next = source.take(it.index() + 1);
                assert(next.drop_last() =~= source.take(it.index()));
                assert(kept@.push(x) =~= next);
            }
            total = total + x.token_count;
            kept.push(x);
        } else {
            proof {
                if !stopped {
                    let next = source.take(it.index() + 1);
                    assert(next.drop_last() =~= source.take(it.index()));
                }
            }
            stopped = true;
        }
    }
    kept
}

/// Takes the items one by one where they fit what is left of `max_tokens`.
pub fn take_all_within(contexts: Vec<Context>, max_tokens: usize) -> (kept: (Vec<Context>, usize))
    ensures
        kept.0@ == fit_all(contexts@, max_tokens as int),
        kept.1 == total_tokens(kept.0@),
        kept.1 <= max_tokens,
{
    let mut kept: Vec<Context> = Vec::new();
    let mut total: usize = 0;
    let ghost source = contexts@;
    proof {
        assert(source.skip(0) =~= source);
    }
    for x in it: contexts
        invariant
            it.seq() == source,
            total <= max_tokens,
            total == total_tokens(kept@),
            fit_all(source, max_tokens as int) == kept@ + fit_all(
                source.skip(it.index()),
                max_tokens - total,
            ),
    {
        proof {
            let rest = source.skip(it.index());
            assert(rest[0] == x);
            assert(rest.drop_first() =~= source.skip(it.index() + 1));
        }
        if x.token_count <= max_tokens - total {
            proof {
                let after = fit_all(source.skip(it.index() + 1), max_tokens - total - x.token_count);
                assert(kept@ + (seq![x] + after) =~= kept@.push(x) + after);
                assert(kept@.push(x).drop_last() =~= kept@);
            }
            total = total + x.token_count;
            kept.push(x);
        }
    }
    proof {
        assert(source.skip(source.len() as int) =~= Seq::<Context>::empty());
        assert(kept@ + Seq::<Context>::empty() =~= kept@);
    }
    (kept, total)
}

} // verus!
