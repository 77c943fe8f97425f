//! Estimation of the tokens that a text takes.

use vstd::prelude::*;
use crate::config::TokenEstimator as TokenEstimatorConfig;
use crate::text::{chars_of, unicode_whitespace, word_count};
use crate::units::SCALE;

verus! {

/// Tokens for `count` units (characters or words) where `per_token`
/// millionths of a unit make one token: `count / per_token` rounded up, and
/// never more than `usize::MAX`. Where `per_token` is zero, any unit at all
/// takes `usize::MAX` tokens.
pub open spec fn tokens_for(count: nat, per_token: u32) -> nat {
    if count == 0 {
        0
    } else if per_token == 0 {
        usize::MAX as nat
    } else {
        let exact = (count * SCALE + per_token - 1) / (per_token as int);
        if exact > usize::MAX {
            usize::MAX as nat
        } else {
            exact as nat
        }
    }
}

/// The estimate of a configuration for a text.
pub open spec fn estimate_of(config: TokenEstimatorConfig, text: Seq<char>) -> nat {
    match config {
        TokenEstimatorConfig::CharacterBased { chars_per_token } => tokens_for(
            text.len(),
            chars_per_token,
        ),
        TokenEstimatorConfig::WordBased { words_per_token } => tokens_for(
            word_count(text),
            words_per_token,
        ),
    }
}

/// There are no more words than characters.
pub proof fn lemma_word_count_bound(s: Seq<char>)
    ensures
        word_count(s) <= s.len(),
    decreases s.len(),
{
    if s.len() > 0 {
        lemma_word_count_bound(s.drop_last());
    }
}

fn tokens(count: usize, per_token: u32) -> (n: usize)
    ensures
        n == tokens_for(count as nat, per_token),
{
    if count == 0 {
        return 0;
    }
    if per_token == 0 {
        return usize::MAX;
    }
    assert(0 <= (count as int) * (SCALE as int) <= 0xffff_ffff_ffff_ffff * 1_000_000)
        by (nonlinear_arith)
        requires
            0 <= count <= 0xffff_ffff_ffff_ffff,
            SCALE == 1_000_000,
    ;
    let exact: u128 = ((count as u128) * (SCALE as u128) + (per_token as u128) - 1) / (
    per_token as u128);
    if exact > usize::MAX as u128 {
        usize::MAX
    } else {
        exact as usize
    }
}

/// Number of words of a text.
pub fn count_words(text: &str) -> (n: usize)
    ensures
        n == word_count(text@),
{
    let chars = chars_of(text);
    let mut n: usize = 0;
    let mut i: usize = 0;
    let mut in_word = false;
    while i < chars.len()
        invariant
            i <= chars.len(),
            n == word_count(chars@.take(i as int)),
            in_word == (i > 0 && !unicode_whitespace(chars@[i - 1])),
        decreases chars.len() - i,
    {
        let space = chars[i].is_whitespace();
        proof {
            let next = chars@.take(i + 1);
            assert(next.drop_last() =~= chars@.take(i as int));
            assert(next.last() == chars@[i as int]);
            if i > 0 {
                assert(next[next.len() - 2] == chars@[i - 1]);
            }
            lemma_word_count_bound(chars@.take(i as int));
        }
        if !space && !in_word {
            n = n + 1;
        }
        in_word = !space;
        i = i + 1;
    }
    assert(chars@.take(chars.len() as int) =~= chars@);
    n
}

/// Estimator of token counts, by one fixed strategy.
#[derive(Debug, Clone, Copy)]
pub struct TokenEstimator {
    config: TokenEstimatorConfig,
}

impl TokenEstimator {
    /// The strategy of this estimator.
    pub closed spec fn strategy(self) -> TokenEstimatorConfig {
        self.config
    }

    pub fn new(config: TokenEstimatorConfig) -> (estimator: Self)
        ensures
            estimator.strategy() == config,
    {
        TokenEstimator { config }
    }

    /// Estimated tokens of `text`.
    pub fn estimate(&self, text: &str) -> (n: usize)
        ensures
            n == estimate_of(self.strategy(), text@),
    {
        match self.config {
            TokenEstimatorConfig::CharacterBased { chars_per_token } => {
                let chars = chars_of(text);
                tokens(chars.len(), chars_per_token)
            },
            TokenEstimatorConfig::WordBased { words_per_token } => {
                tokens(count_words(text), words_per_token)
            },
        }
    }

    /// Estimated tokens of each text, in order.
    pub fn estimate_batch(&self, texts: &Vec<String>) -> (counts: Vec<usize>)
        ensures
            counts@.len() == texts@.len(),
            forall|i: int|
                0 <= i < texts@.len() ==> counts@[i] == estimate_of(
                    self.strategy(),
                    (#[trigger] texts@[i])@,
                ),
    {
        let mut counts: Vec<usize> = Vec::new();
        let mut i: usize = 0;
        while i < texts.len()
            invariant
                i <= texts.len(),
                counts@.len() == i,
                forall|j: int|
                    0 <= j < i ==> counts@[j] == estimate_of(
                        self.strategy(),
                        (#[trigger] texts@[j])@,
                    ),
            decreases texts.len() - i,
        {
            counts.push(self.estimate(texts[i].as_str()));
            i = i + 1;
        }
        counts
    }
}

} // verus!
