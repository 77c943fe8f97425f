//! Composite scoring and ranking of context items.
//!
//! A score blends four signals, each a fraction in millionths: the
//! similarity from the search, the recency of the item, the standing of its
//! tier, and how often it has been read. Recency decays exponentially with
//! age and frequency grows logarithmically with the number of reads; the
//! two curves are not computed here but asked of a `ScoreCurves`.

use vstd::prelude::*;
use crate::config::RankingWeights;
use crate::hirag::arrange::{arrange, arranged, ArrangeBy};
use crate::hirag::models::Context;
use crate::json::{json_unsigned, unsigned_value};
use crate::time::unix_now;
use crate::units::SCALE;
use crate::vector_db::models::ContextLevel;

verus! {

/// The two curves of the composite score.
pub trait ScoreCurves {
    /// Recency of an item written `age_seconds` ago, in millionths: one for
    /// an item just written, falling by the factor e with every day.
    fn recency(&self, age_seconds: u64) -> u32;

    /// Frequency signal of an item read `access_count` times, in
    /// millionths: the logarithm of one more than the count, as a fraction
    /// of the logarithm of 101.
    fn frequency(&self, access_count: u64) -> u32;
}

/// The standing of a tier, in millionths.
pub open spec fn level_score(level: ContextLevel) -> u32 {
    match level {
        ContextLevel::Immediate => 1_000_000,
        ContextLevel::ShortTerm => 700_000,
        ContextLevel::LongTerm => 500_000,
    }
}

/// A signal cut off at one.
pub open spec fn capped(signal: u32) -> u32 {
    if signal > SCALE {
        SCALE
    } else {
        signal
    }
}

/// Seconds from `created` to `now`; zero where `created` is later.
pub open spec fn age_of(now: i64, created: i64) -> u64 {
    if now > created {
        (now - created) as u64
    } else {
        0
    }
}

/// The weighted sum of four signals, in millionths, rounded down.
pub open spec fn blend(w: RankingWeights, similarity: u32, recency: u32, level: u32, frequency: u32) -> int {
    (w.similarity_weight * similarity + w.recency_weight * recency + w.level_weight * level
        + w.frequency_weight * frequency) / (SCALE as int)
}

/// The composite score: the blend, and never more than `u32::MAX`.
pub open spec fn composite(w: RankingWeights, similarity: u32, recency: u32, level: u32, frequency: u32) -> u32 {
    let sum = blend(w, similarity, recency, level, frequency);
    if sum > u32::MAX {
        u32::MAX
    } else {
        sum as u32
    }
}

/// How often an item has been read: the unsigned integer under the key
/// `access_count` of its metadata, zero where there is none.
pub open spec fn access_count(context: Context) -> u64 {
    match context.metadata.value_of("access_count"@) {
        Some(value) => match unsigned_value(value) {
            Some(count) => count,
            None => 0,
        },
        None => 0,
    }
}

/// The score of an item whose curves give `recency` and `frequency`. The
/// item's relevance is taken as its similarity. Both curve values count up
/// to one, and an item never read has frequency zero.
pub open spec fn score_of(w: RankingWeights, context: Context, recency: u32, frequency: u32) -> u32 {
    composite(
        w,
        context.relevance_score,
        capped(recency),
        level_score(context.level),
        if access_count(context) == 0 {
            0
        } else {
            capped(frequency)
        },
    )
}

/// `score` is the score of `context` for some values of the two curves.
pub open spec fn scores(w: RankingWeights, context: Context, score: u32) -> bool {
    exists|recency: u32, frequency: u32| score == score_of(w, context, recency, frequency)
}

/// `after` is `before` with a score in place of its similarity.
pub open spec fn rescored(w: RankingWeights, before: Context, after: Context) -> bool {
    &&& after == (Context { relevance_score: after.relevance_score, ..before })
    &&& scores(w, before, after.relevance_score)
}

/// `after` holds the items of `before`, each with its score.
pub open spec fn all_rescored(w: RankingWeights, before: Seq<Context>, after: Seq<Context>) -> bool {
    &&& after.len() == before.len()
    &&& forall|i: int| 0 <= i < before.len() ==> rescored(w, before[i], #[trigger] after[i])
}

/// Where the weights are fractions that add up to one within a hundredth,
/// and the similarity is a fraction, so is the score, within a hundredth.
pub proof fn lemma_score_bounded(w: RankingWeights, context: Context, recency: u32, frequency: u32)
    requires
        w.similarity_weight + w.recency_weight + w.level_weight + w.frequency_weight <= SCALE
            + 10_000,
        context.relevance_score <= SCALE,
    ensures
        score_of(w, context, recency, frequency) <= SCALE + 10_000,
{
    let s = context.relevance_score as int;
    let r = capped(recency) as int;
    let l = level_score(context.level) as int;
    let f = if access_count(context) == 0 {
        0int
    } else {
        capped(frequency) as int
    };
    let ws = w.similarity_weight as int;
    let wr = w.recency_weight as int;
    let wl = w.level_weight as int;
    let wf = w.frequency_weight as int;
    assert(ws * s <= ws * 1_000_000) by (nonlinear_arith)
        requires
            0 <= ws,
            0 <= s <= 1_000_000,
    ;
    assert(wr * r <= wr * 1_000_000) by (nonlinear_arith)
        requires
            0 <= wr,
            0 <= r <= 1_000_000,
    ;
    assert(wl * l <= wl * 1_000_000) by (nonlinear_arith)
        requires
            0 <= wl,
            0 <= l <= 1_000_000,
    ;
    assert(wf * f <= wf * 1_000_000) by (nonlinear_arith)
        requires
            0 <= wf,
            0 <= f <= 1_000_000,
    ;
    assert((ws + wr + wl + wf) * 1_000_000 == ws * 1_000_000 + wr * 1_000_000 + wl * 1_000_000
        + wf * 1_000_000) by (nonlinear_arith);
    assert((ws + wr + wl + wf) * 1_000_000 / 1_000_000 == ws + wr + wl + wf) by (nonlinear_arith);
    let total = ws * s + wr * r + wl * l + wf * f;
    assert(total / 1_000_000 <= (ws + wr + wl + wf) * 1_000_000 / 1_000_000) by (nonlinear_arith)
        requires
            total <= (ws + wr + wl + wf) * 1_000_000,
    ;
}

/// Ranker of context items by composite score.
#[derive(Debug, Clone, Copy)]
pub struct ContextRanker {
    weights: RankingWeights,
}

impl ContextRanker {
    /// The weights of this ranker.
    pub closed spec fn weights(self) -> RankingWeights {
        self.weights
    }

    pub fn new(weights: RankingWeights) -> (ranker: Self)
        ensures
            ranker.weights() == weights,
    {
        ContextRanker { weights }
    }

    /// The standing of a tier, in millionths: one for the immediate tier,
    /// 0.7 for the short-term tier, 0.5 for the long-term tier.
    pub fn calculate_level_score(level: ContextLevel) -> (score: u32)
        ensures
            score == level_score(level),
    {
        match level {
            ContextLevel::Immediate => 1_000_000,
            ContextLevel::ShortTerm => 700_000,
            ContextLevel::LongTerm => 500_000,
        }
    }

    /// Seconds from `timestamp` to `current_time`, zero where the timestamp
    /// is the later.
    pub fn age_seconds(timestamp: i64, current_time: i64) -> (age: u64)
        ensures
            age == age_of(current_time, timestamp),
    {
        if current_time > timestamp {
            ((current_time as i128) - (timestamp as i128)) as u64
        } else {
            0
        }
    }

    /// How often an item has been read, by its metadata.
    pub fn access_count_of(context: &Context) -> (count: u64)
        ensures
            count == access_count(*context),
    {
        match context.metadata.get("access_count") {
            Some(value) => match json_unsigned(value) {
                Some(count) => count,
                None => 0,
            },
            None => 0,
        }
    }

    /// The weighted sum of four signals.
    pub fn combine(&self, similarity: u32, recency: u32, level: u32, frequency: u32) -> (score: u32)
        ensures
            score == composite(self.weights(), similarity, recency, level, frequency),
    {
        let w = &self.weights;
        assert(0 <= (w.similarity_weight as int) * (similarity as int) <= 0xffff_ffff * 0xffff_ffff)
            by (nonlinear_arith);
        assert(0 <= (w.recency_weight as int) * (recency as int) <= 0xffff_ffff * 0xffff_ffff)
            by (nonlinear_arith);
        assert(0 <= (w.level_weight as int) * (level as int) <= 0xffff_ffff * 0xffff_ffff)
            by (nonlinear_arith);
        assert(0 <= (w.frequency_weight as int) * (frequency as int) <= 0xffff_ffff * 0xffff_ffff)
            by (nonlinear_arith);
        let sum: u128 = ((w.similarity_weight as u128) * (similarity as u128) + (
        w.recency_weight as u128) * (recency as u128) + (w.level_weight as u128) * (level as u128)
            + (w.frequency_weight as u128) * (frequency as u128)) / (SCALE as u128);
        if sum > u32::MAX as u128 {
            u32::MAX
        } else {
            sum as u32
        }
    }

    /// The score of an item for given values of the two curves.
    pub fn score_with(&self, context: &Context, recency: u32, frequency: u32) -> (score: u32)
        ensures
            score == score_of(self.weights(), *context, recency, frequency),
    {
        let recency = if recency > SCALE {
            SCALE
        } else {
            recency
        };
        let frequency = if Self::access_count_of(context) == 0 {
            0
        } else if frequency > SCALE {
            SCALE
        } else {
            frequency
        };
        self.combine(
            context.relevance_score,
            recency,
            Self::calculate_level_score(context.level),
            frequency,
        )
    }

    /// The composite score of an item at `current_time`. The recency is
    /// asked for the item's age; the frequency is asked for its number of
    /// reads, unless it was never read.
    pub fn calculate_score<C: ScoreCurves>(
        &self,
        context: &Context,
        current_time: i64,
        curves: &C,
    ) -> (score: u32)
        ensures
            scores(self.weights(), *context, score),
    {
        let recency = curves.recency(Self::age_seconds(context.timestamp, current_time));
        let count = Self::access_count_of(context);
        let frequency = if count > 0 {
            curves.frequency(count)
        } else {
            0
        };
        self.score_with(context, recency, frequency)
    }

    /// Gives every item its composite score at `current_time`.
    pub fn score_contexts<C: ScoreCurves>(
        &self,
        contexts: Vec<Context>,
        current_time: i64,
        curves: &C,
    ) -> (scored: Vec<Context>)
        ensures
            all_rescored(self.weights(), contexts@, scored@),
    {
        let mut scored: Vec<Context> = Vec::new();
        let ghost source = contexts@;
        for x in it: contexts
            invariant
                it.seq() == source,
                scored@.len() == it.index(),
                forall|i: int|
                    0 <= i < scored@.len() ==> rescored(self.weights(), source[i], #[trigger] scored@[i]),
        {
            let score = self.calculate_score(&x, current_time, curves);
            let mut item = x;
            item.relevance_score = score;
            scored.push(item);
        }
        scored
    }

    /// Scores every item at the present time and puts the items in order:
    /// higher score first, of equal scores the later written first.
    pub fn rank_contexts<C: ScoreCurves>(&self, contexts: Vec<Context>, curves: &C) -> (ranked: Vec<
        Context,
    >)
        ensures
            exists|scored: Seq<Context>|
                all_rescored(self.weights(), contexts@, scored) && arranged(
                    ArrangeBy::Relevance,
                    ranked@,
                    scored,
                ),
    {
        let now = unix_now();
        self.rank_contexts_at(contexts, now, curves)
    }

    /// As `rank_contexts`, at a given time.
    pub fn rank_contexts_at<C: ScoreCurves>(
        &self,
        contexts: Vec<Context>,
        current_time: i64,
        curves: &C,
    ) -> (ranked: Vec<Context>)
        ensures
            exists|scored: Seq<Context>|
                all_rescored(self.weights(), contexts@, scored) && arranged(
                    ArrangeBy::Relevance,
                    ranked@,
                    scored,
                ),
    {
        let scored = self.score_contexts(contexts, current_time, curves);
        arrange(scored, ArrangeBy::Relevance)
    }
}

} // verus!
