use context_manager::config::RankingWeights;
use context_manager::hirag::arrange::{arrange, ArrangeBy};
use context_manager::hirag::models::Context;
use context_manager::hirag::ranker::{ContextRanker, ScoreCurves};
use context_manager::metadata::Metadata;
use context_manager::vector_db::models::ContextLevel;

struct FloatCurves;

impl ScoreCurves for FloatCurves {
    fn recency(&self, age_seconds: u64) -> u32 {
        let hours = age_seconds as f64 / 3600.0;
        ((-hours / 24.0).exp() * 1_000_000.0).round() as u32
    }

    fn frequency(&self, access_count: u64) -> u32 {
        (((1.0 + access_count as f64).log10() / 101f64.log10()) * 1_000_000.0).round() as u32
    }
}

struct WildCurves;

impl ScoreCurves for WildCurves {
    fn recency(&self, _age_seconds: u64) -> u32 {
        u32::MAX
    }

    fn frequency(&self, _access_count: u64) -> u32 {
        u32::MAX
    }
}

fn weights() -> RankingWeights {
    RankingWeights {
        similarity_weight: 500_000,
        recency_weight: 200_000,
        level_weight: 200_000,
        frequency_weight: 100_000,
    }
}

fn item(id: u128, level: ContextLevel, similarity: u32, timestamp: i64, access_count: Option<u64>) -> Context {
    let mut context = Context::new(id, format!("item {}", id), level, timestamp, 10);
    context.relevance_score = similarity;
    if let Some(count) = access_count {
        let mut metadata = Metadata::new();
        metadata.insert("access_count".to_string(), serde_json::Value::from(count));
        context.metadata = metadata;
    }
    context
}

#[test]
fn test_level_score() {
    assert_eq!(ContextRanker::calculate_level_score(ContextLevel::Immediate), 1_000_000);
    assert_eq!(ContextRanker::calculate_level_score(ContextLevel::ShortTerm), 700_000);
    assert_eq!(ContextRanker::calculate_level_score(ContextLevel::LongTerm), 500_000);
}

#[test]
fn blend_is_the_weighted_sum() {
    let ranker = ContextRanker::new(weights());
    // 0.5*0.8 + 0.2*0.5 + 0.2*1.0 + 0.1*0.25 = 0.725
    assert_eq!(ranker.combine(800_000, 500_000, 1_000_000, 250_000), 725_000);
    assert_eq!(ranker.combine(0, 0, 0, 0), 0);
    assert_eq!(ranker.combine(1_000_000, 1_000_000, 1_000_000, 1_000_000), 1_000_000);
    // rounded down
    assert_eq!(ranker.combine(1, 0, 0, 0), 0);
}

#[test]
fn recent_immediate_item_ranks_before_old_long_term_item() {
    let now = 1_700_000_000i64;
    let ranker = ContextRanker::new(weights());
    let a = item(1, ContextLevel::Immediate, 800_000, now - 3600, Some(0));
    let b = item(2, ContextLevel::LongTerm, 800_000, now - 172_800, Some(100));
    let score_a = ranker.calculate_score(&a, now, &FloatCurves);
    let score_b = ranker.calculate_score(&b, now, &FloatCurves);
    // A = 0.5*0.8 + 0.2*exp(-1/24) + 0.2*1.0 + 0.1*0      ~ 0.792
    // B = 0.5*0.8 + 0.2*exp(-2)    + 0.2*0.5 + 0.1*1.0    ~ 0.627
    assert!((score_a as i64 - 791_838).abs() <= 2, "{}", score_a);
    assert!((score_b as i64 - 627_067).abs() <= 2, "{}", score_b);
    let ranked = ranker.rank_contexts_at(vec![b, a], now, &FloatCurves);
    let ids: Vec<u128> = ranked.iter().map(|c| c.id).collect();
    assert_eq!(ids, vec![1, 2]);
    assert!(ranked[0].relevance_score >= ranked[1].relevance_score);
}

#[test]
fn never_read_item_has_no_frequency_signal() {
    let ranker = ContextRanker::new(weights());
    let now = 1_000;
    let unread = item(1, ContextLevel::Immediate, 0, now, None);
    let zero = item(2, ContextLevel::Immediate, 0, now, Some(0));
    let read = item(3, ContextLevel::Immediate, 0, now, Some(100));
    assert_eq!(ContextRanker::access_count_of(&unread), 0);
    assert_eq!(ContextRanker::access_count_of(&zero), 0);
    assert_eq!(ContextRanker::access_count_of(&read), 100);
    // recency 1.0 and level 1.0 give 0.4; frequency adds 0.1 for a hundred reads
    assert_eq!(ranker.calculate_score(&unread, now, &FloatCurves), 400_000);
    assert_eq!(ranker.calculate_score(&zero, now, &FloatCurves), 400_000);
    assert_eq!(ranker.calculate_score(&read, now, &FloatCurves), 500_000);
}

#[test]
fn curve_values_count_up_to_one() {
    let ranker = ContextRanker::new(weights());
    let read = item(3, ContextLevel::LongTerm, 1_000_000, 0, Some(5));
    // 0.5*1 + 0.2*1 + 0.2*0.5 + 0.1*1
    assert_eq!(ranker.calculate_score(&read, 10, &WildCurves), 900_000);
    assert_eq!(ranker.score_with(&read, u32::MAX, u32::MAX), 900_000);
}

#[test]
fn age_is_zero_for_items_of_the_future() {
    assert_eq!(ContextRanker::age_seconds(100, 160), 60);
    assert_eq!(ContextRanker::age_seconds(160, 100), 0);
    assert_eq!(ContextRanker::age_seconds(i64::MIN, i64::MAX), u64::MAX);
}

#[test]
fn equal_scores_rank_by_timestamp_then_by_arrival() {
    let items = vec![
        item(1, ContextLevel::ShortTerm, 500_000, 10, None),
        item(2, ContextLevel::ShortTerm, 700_000, 5, None),
        item(3, ContextLevel::ShortTerm, 500_000, 20, None),
        item(4, ContextLevel::ShortTerm, 500_000, 10, None),
    ];
    let ranked = arrange(items, ArrangeBy::Relevance);
    let ids: Vec<u128> = ranked.iter().map(|c| c.id).collect();
    assert_eq!(ids, vec![2, 3, 1, 4]);
    for pair in ranked.windows(2) {
        assert!(pair[0].relevance_score >= pair[1].relevance_score);
    }
}

#[test]
fn newest_first_ignores_relevance() {
    let items = vec![
        item(1, ContextLevel::Immediate, 900_000, 10, None),
        item(2, ContextLevel::Immediate, 100_000, 30, None),
        item(3, ContextLevel::Immediate, 500_000, 20, None),
    ];
    let ranked = arrange(items, ArrangeBy::Newest);
    let ids: Vec<u128> = ranked.iter().map(|c| c.id).collect();
    assert_eq!(ids, vec![2, 3, 1]);
}
