use context_manager::config::TokenEstimator as TokenEstimatorConfig;
use context_manager::hirag::token_estimator::{count_words, TokenEstimator};

#[test]
fn test_character_based_estimation() {
    let config = TokenEstimatorConfig::CharacterBased { chars_per_token: 4_000_000 };
    let estimator = TokenEstimator::new(config);

    let text = "Hello world";
    let tokens = estimator.estimate(text);

    assert_eq!(tokens, 3); // 11 chars / 4 = 2.75 -> 3
}

#[test]
fn test_word_based_estimation() {
    let config = TokenEstimatorConfig::WordBased { words_per_token: 1_300_000 };
    let estimator = TokenEstimator::new(config);

    let text = "Hello world test";
    let tokens = estimator.estimate(text);

    assert_eq!(tokens, 3); // 3 words / 1.3 = 2.3 -> 3
}

#[test]
fn estimate_rounds_up_and_is_exact_on_multiples() {
    let estimator = TokenEstimator::new(TokenEstimatorConfig::CharacterBased { chars_per_token: 4_000_000 });
    assert_eq!(estimator.estimate(""), 0);
    assert_eq!(estimator.estimate("a"), 1);
    assert_eq!(estimator.estimate("abcd"), 1);
    assert_eq!(estimator.estimate("abcde"), 2);
    assert_eq!(estimator.estimate(&"x".repeat(480)), 120);
    // characters count, not bytes
    assert_eq!(estimator.estimate("äöüß"), 1);
}

#[test]
fn estimate_with_fractional_rate() {
    let estimator = TokenEstimator::new(TokenEstimatorConfig::CharacterBased { chars_per_token: 2_500_000 });
    assert_eq!(estimator.estimate("abcde"), 2);
    assert_eq!(estimator.estimate("abcdef"), 3);
}

#[test]
fn estimate_with_rate_zero() {
    let estimator = TokenEstimator::new(TokenEstimatorConfig::CharacterBased { chars_per_token: 0 });
    assert_eq!(estimator.estimate(""), 0);
    assert_eq!(estimator.estimate("a"), usize::MAX);
}

#[test]
fn words_are_runs_between_white_space() {
    assert_eq!(count_words(""), 0);
    assert_eq!(count_words("   "), 0);
    assert_eq!(count_words("one"), 1);
    assert_eq!(count_words("  one   two\tthree\n"), 3);
    assert_eq!(count_words("a\u{a0}b\u{2003}c"), 3);
}

#[test]
fn estimate_batch_keeps_order() {
    let estimator = TokenEstimator::new(TokenEstimatorConfig::WordBased { words_per_token: 1_000_000 });
    let texts = vec!["a b c".to_string(), "".to_string(), "one".to_string()];
    assert_eq!(estimator.estimate_batch(&texts), vec![3, 0, 1]);
}
