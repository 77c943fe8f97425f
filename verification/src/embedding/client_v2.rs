//! The logic of the embedding client.
//!
//! Asking the service is the caller's part: a request goes out over the
//! network and the caller waits between attempts. What the client decides
//! is here. Before a request: which texts are rejected, which vectors the
//! cache still holds, and whether the circuit breaker admits a call. After
//! each attempt: whether the answer is delivered, the request is tried
//! again and after what delay, or the failure is handed on. After the
//! answer: whether it fits the request, what goes into the cache, and the
//! vectors in the order of the texts.

use vstd::prelude::*;
use vstd::arithmetic::power2::{lemma_pow2_strictly_increases, lemma_pow2_unfold, pow2};
use crate::config::EmbeddingConfig;
use crate::crypto::{hex_encode, hex_of, random_number, sha256, sha256_of};
use crate::embedding::cache::{among, answer_of, EmbeddingCache};
use crate::embedding::models::EmbeddingRequest;
use crate::error::{ContextError, EmbeddingError};
use crate::middleware::validator::{text_verdict, InputValidator, ValidationError};
use crate::vector_db::circuit_breaker::{
    admits, after_failure, after_failures, after_request, after_success,
    lemma_threshold_failures_open, BreakerState, CircuitBreaker, CircuitBreakerConfig,
    CircuitState, Thresholds,
};

verus! {

/// The dimension of the embeddings where no other is configured: that of
/// the service's reference model.
pub const EMBEDDING_DIMENSION: usize = 1024;

/// Delay before the second attempt, in milliseconds.
pub const BASE_BACKOFF_MS: u64 = 100;

/// Delay before the second attempt after a rate limit, in milliseconds.
pub const RATE_LIMIT_BACKOFF_MS: u64 = 500;

/// Longest delay between attempts before jitter, in milliseconds.
pub const MAX_BACKOFF_MS: u64 = 30_000;

/// What came of one attempt to ask the service.
#[derive(Debug, Clone)]
pub enum Outcome {
    /// The service answered with embeddings.
    Delivered,
    /// The service answered, but the answer could not be read.
    Unparseable(String),
    /// The service refused the credentials.
    Unauthorized,
    /// The service refused because of its rate limit.
    RateLimited,
    /// The service answered with another failure.
    Rejected(String),
    /// The service was not reached.
    Unreachable(String),
}

/// What the client does after an attempt.
#[derive(Debug, Clone)]
pub enum Decision {
    /// The answer is taken.
    Deliver,
    /// The request is sent again after so many milliseconds.
    Retry { delay_ms: u64 },
    /// The request has failed.
    Fail(EmbeddingError),
}

/// What an answer of the service with an HTTP status means: a status from
/// 200 to 299 is an answer with embeddings where its body could be read,
/// 401 is refused credentials, 429 a rate limit, every other status another
/// failure. `detail` says more of a failure.
pub open spec fn outcome_of(status: u16, body_read: bool, detail: String) -> Outcome {
    if 200 <= status <= 299 {
        if body_read {
            Outcome::Delivered
        } else {
            Outcome::Unparseable(detail)
        }
    } else if status == 401 {
        Outcome::Unauthorized
    } else if status == 429 {
        Outcome::RateLimited
    } else {
        Outcome::Rejected(detail)
    }
}

/// The fingerprint of a text: `emb_` and the SHA-256 digest of its UTF-8
/// bytes in hexadecimal.
pub open spec fn fingerprint(text: Seq<char>) -> Seq<char> {
    "emb_"@ + hex_of(sha256_of(vstd::utf8::encode_utf8(text)))
}

/// How often the delay has doubled after attempt `attempt`.
pub open spec fn doublings(attempt: u32) -> nat {
    if attempt <= 1 {
        0
    } else {
        (attempt - 1) as nat
    }
}

/// The delay before the attempt after attempt `attempt`, without jitter:
/// `base` for the first, twice as long for each further one, and never over
/// `MAX_BACKOFF_MS`.
pub open spec fn backoff(base: u64, attempt: u32) -> nat {
    let doubled = base * pow2(doublings(attempt));
    if doubled > MAX_BACKOFF_MS {
        MAX_BACKOFF_MS as nat
    } else {
        doubled as nat
    }
}

/// A delay with jitter: between a quarter less and a quarter more than
/// `delay`, chosen by `seed`.
pub open spec fn jittered(delay: nat, seed: u64) -> nat {
    (delay - delay / 4 + seed as nat % (delay / 2 + 1)) as nat
}

/// Another attempt after the backoff with jitter while no more than
/// `max_retries` attempts have failed, else the failure.
pub open spec fn retry_or(
    attempt: u32,
    max_retries: u32,
    base: u64,
    seed: u64,
    failure: EmbeddingError,
) -> Decision {
    if attempt <= max_retries {
        Decision::Retry { delay_ms: jittered(backoff(base, attempt), seed) as u64 }
    } else {
        Decision::Fail(failure)
    }
}

/// What the client does after attempt `attempt`, the first being attempt
/// one. An answer is delivered. Refused credentials fail at once. Every
/// other outcome is tried again while no more than `max_retries` attempts
/// have failed, and is handed on after that: a rate limit as
/// `RateLimitExceeded`, a service that was not reached as `NetworkError`,
/// the others as `ApiError`. The delay starts from `BASE_BACKOFF_MS`, after
/// a rate limit from `RATE_LIMIT_BACKOFF_MS`.
pub open spec fn decision_of(outcome: Outcome, attempt: u32, max_retries: u32, seed: u64) -> Decision {
    match outcome {
        Outcome::Delivered => Decision::Deliver,
        Outcome::Unauthorized => Decision::Fail(EmbeddingError::AuthenticationFailed),
        Outcome::Unparseable(detail) => retry_or(
            attempt,
            max_retries,
            BASE_BACKOFF_MS,
            seed,
            EmbeddingError::ApiError(detail),
        ),
        Outcome::RateLimited => retry_or(
            attempt,
            max_retries,
            RATE_LIMIT_BACKOFF_MS,
            seed,
            EmbeddingError::RateLimitExceeded,
        ),
        Outcome::Rejected(detail) => retry_or(
            attempt,
            max_retries,
            BASE_BACKOFF_MS,
            seed,
            EmbeddingError::ApiError(detail),
        ),
        Outcome::Unreachable(detail) => retry_or(
            attempt,
            max_retries,
            BASE_BACKOFF_MS,
            seed,
            EmbeddingError::NetworkError(detail),
        ),
    }
}

/// The circuit breaker after an outcome at `now`: an answer counts as a
/// success, refused credentials count as nothing, every other outcome
/// counts as a failure.
pub open spec fn breaker_after(
    outcome: Outcome,
    s: BreakerState,
    t: crate::vector_db::circuit_breaker::Thresholds,
    now: u128,
) -> BreakerState {
    match outcome {
        Outcome::Delivered => after_success(s, t),
        Outcome::Unauthorized => s,
        _ => after_failure(s, t, now),
    }
}

/// Whether an outcome counts as a failure for the circuit breaker: every
/// outcome but an answer and refused credentials.
pub open spec fn counts_as_failure(outcome: Outcome) -> bool {
    !(outcome is Delivered) && !(outcome is Unauthorized)
}

/// The circuit breaker after the outcomes of exchanges in a row, each
/// taken note of at its time.
pub open spec fn breaker_after_all(
    outcomes: Seq<Outcome>,
    s: BreakerState,
    t: Thresholds,
    times: Seq<u128>,
) -> BreakerState
    decreases outcomes.len(),
{
    if outcomes.len() == 0 || times.len() != outcomes.len() {
        s
    } else {
        breaker_after(
            outcomes.last(),
            breaker_after_all(outcomes.drop_last(), s, t, times.drop_last()),
            t,
            times.last(),
        )
    }
}

/// As many failed exchanges in a row as the failure threshold, on a closed
/// circuit breaker, leave it open; a call that asks it before its timeout
/// has passed since the last of them is refused. And an exchange that fails
/// so when no retry is left is handed on as a failure.
pub proof fn lemma_failed_exchanges_open(
    outcomes: Seq<Outcome>,
    s: BreakerState,
    t: Thresholds,
    times: Seq<u128>,
    now: u128,
    seed: u64,
)
    requires
        s.state == CircuitState::Closed,
        t.failure_threshold >= 1,
        outcomes.len() == t.failure_threshold,
        times.len() == outcomes.len(),
        forall|i: int| 0 <= i < outcomes.len() ==> counts_as_failure(#[trigger] outcomes[i]),
    ensures
        breaker_after_all(outcomes, s, t, times).state == CircuitState::Open,
        breaker_after_all(outcomes, s, t, times).opened_at is Some,
        now < breaker_after_all(outcomes, s, t, times).opened_at->0 + t.timeout_ms ==> !admits(
            breaker_after_all(outcomes, s, t, times),
            t,
            now,
        ),
        decision_of(outcomes.last(), 1, 0, seed) is Fail,
{
    lemma_failures_are_failures(outcomes, s, t, times);
    lemma_threshold_failures_open(s, t, times);
    lemma_open_has_time(s, t, times);
}

/// Failed exchanges count as failures, one by one.
proof fn lemma_failures_are_failures(
    outcomes: Seq<Outcome>,
    s: BreakerState,
    t: Thresholds,
    times: Seq<u128>,
)
    requires
        times.len() == outcomes.len(),
        forall|i: int| 0 <= i < outcomes.len() ==> counts_as_failure(#[trigger] outcomes[i]),
    ensures
        breaker_after_all(outcomes, s, t, times) == after_failures(s, t, times),
    decreases outcomes.len(),
{
    if outcomes.len() > 0 {
        let front = outcomes.drop_last();
        assert forall|i: int| 0 <= i < front.len() implies counts_as_failure(#[trigger] front[i]) by {
            assert(front[i] == outcomes[i]);
        }
        lemma_failures_are_failures(front, s, t, times.drop_last());
        assert(counts_as_failure(outcomes[outcomes.len() - 1]));
    }
}

/// A breaker that failures have opened knows when it was opened.
proof fn lemma_open_has_time(s: BreakerState, t: Thresholds, times: Seq<u128>)
    requires
        s.state == CircuitState::Closed,
    ensures
        after_failures(s, t, times).state == CircuitState::Open ==> after_failures(
            s,
            t,
            times,
        ).opened_at is Some,
        after_failures(s, t, times).state != CircuitState::HalfOpen,
    decreases times.len(),
{
    if times.len() > 0 {
        lemma_open_has_time(s, t, times.drop_last());
    }
}

/// What is answered to a batch before anything else: a batch over the
/// batch size, or the first text that is rejected.
pub open spec fn batch_verdict(texts: Seq<String>, batch_size: usize) -> Result<(), ContextError> {
    if texts.len() > batch_size {
        Err(
            ContextError::Validation(
                ValidationError::BatchTooLarge { size: texts.len() as usize, max_size: batch_size },
            ),
        )
    } else {
        texts_verdict(texts)
    }
}

/// The verdict on the first text that is rejected.
pub open spec fn texts_verdict(texts: Seq<String>) -> Result<(), ContextError>
    decreases texts.len(),
{
    if texts.len() == 0 {
        Ok(())
    } else {
        match text_verdict(texts[0]@) {
            Err(e) => Err(ContextError::Validation(e)),
            Ok(_) => texts_verdict(texts.drop_first()),
        }
    }
}

/// The positions of `slots` that hold nothing, in rising order.
pub open spec fn gaps(slots: Seq<Option<Vec<u32>>>) -> Seq<int>
    decreases slots.len(),
{
    if slots.len() == 0 {
        Seq::empty()
    } else if slots.last() is None {
        gaps(slots.drop_last()).push(slots.len() - 1)
    } else {
        gaps(slots.drop_last())
    }
}

/// A jittered delay is at least three quarters of the delay and at most
/// five quarters of it, within the rounding of whole milliseconds.
pub proof fn lemma_jitter_bounds(delay: nat, seed: u64)
    ensures
        delay - delay / 4 <= jittered(delay, seed) <= delay + delay / 4 + 1,
        delay <= MAX_BACKOFF_MS ==> jittered(delay, seed) <= MAX_BACKOFF_MS + MAX_BACKOFF_MS / 4,
{
    let span = delay / 2 + 1;
    assert(0 <= seed as nat % span < span) by (nonlinear_arith)
        requires
            span > 0,
    ;
}

/// The delay without jitter never falls from one attempt to the next and
/// is never over `MAX_BACKOFF_MS`.
pub proof fn lemma_backoff_grows(base: u64, attempt: u32)
    requires
        1 <= attempt < u32::MAX,
    ensures
        backoff(base, attempt) <= backoff(base, (attempt + 1) as u32) <= MAX_BACKOFF_MS,
{
    lemma_pow2_unfold(attempt as nat);
    vstd::arithmetic::power2::lemma_pow2_pos((attempt - 1) as nat);
    let p = pow2((attempt - 1) as nat);
    assert(doublings(attempt) == attempt - 1);
    assert(doublings((attempt + 1) as u32) == attempt);
    assert(base * p <= base * (2 * p)) by (nonlinear_arith)
        requires
            p > 0,
            base >= 0,
    ;
}

/// Delay before the attempt after attempt `attempt`, without jitter.
pub fn backoff_ms(base: u64, attempt: u32) -> (delay: u64)
    ensures
        delay == backoff(base, attempt),
{
    if base == 0 {
        assert(0 * pow2(doublings(attempt)) == 0) by (nonlinear_arith);
        return 0;
    }
    let mut delay: u64 = if base > MAX_BACKOFF_MS {
        MAX_BACKOFF_MS
    } else {
        base
    };
    let mut i: u32 = 1;
    proof {
        vstd::arithmetic::power2::lemma2_to64();
        assert(base * 1 == base) by (nonlinear_arith);
    }
    while i < attempt && delay < MAX_BACKOFF_MS
        invariant
            1 <= i,
            i <= attempt || (attempt == 0 && i == 1),
            base > 0,
            delay <= MAX_BACKOFF_MS,
            delay == if base * pow2((i - 1) as nat) > MAX_BACKOFF_MS {
                MAX_BACKOFF_MS as int
            } else {
                base * pow2((i - 1) as nat)
            },
        decreases attempt - i,
    {
        proof {
            lemma_pow2_unfold(i as nat);
            let p = pow2((i - 1) as nat);
            assert(base * (2 * p) == 2 * (base * p)) by (nonlinear_arith);
        }
        delay = if delay * 2 > MAX_BACKOFF_MS {
            MAX_BACKOFF_MS
        } else {
            delay * 2
        };
        i = i + 1;
    }
    proof {
        if attempt >= 1 && i < attempt {
            lemma_pow2_strictly_increases((i - 1) as nat, (attempt - 1) as nat);
            let p = pow2((i - 1) as nat);
            let q = pow2((attempt - 1) as nat);
            assert(base * p <= base * q) by (nonlinear_arith)
                requires
                    p <= q,
                    base > 0,
            ;
        }
    }
    delay
}

/// A delay with jitter.
pub fn with_jitter(delay: u64, seed: u64) -> (jittery: u64)
    requires
        delay <= MAX_BACKOFF_MS,
    ensures
        jittery == jittered(delay as nat, seed),
{
    delay - delay / 4 + seed % (delay / 2 + 1)
}

/// What the client does after an attempt, for a given seed of the jitter.
pub fn decide(outcome: Outcome, attempt: u32, max_retries: u32, seed: u64) -> (decision: Decision)
    ensures
        decision == decision_of(outcome, attempt, max_retries, seed),
{
    let base = match &outcome {
        Outcome::RateLimited => RATE_LIMIT_BACKOFF_MS,
        _ => BASE_BACKOFF_MS,
    };
    proof {
        lemma_jitter_bounds(backoff(base, attempt), seed);
    }
    match outcome {
        Outcome::Delivered => Decision::Deliver,
        Outcome::Unauthorized => Decision::Fail(EmbeddingError::AuthenticationFailed),
        Outcome::Unparseable(detail) => if attempt <= max_retries {
            Decision::Retry { delay_ms: with_jitter(backoff_ms(base, attempt), seed) }
        } else {
            Decision::Fail(EmbeddingError::ApiError(detail))
        },
        Outcome::RateLimited => if attempt <= max_retries {
            Decision::Retry { delay_ms: with_jitter(backoff_ms(base, attempt), seed) }
        } else {
            Decision::Fail(EmbeddingError::RateLimitExceeded)
        },
        Outcome::Rejected(detail) => if attempt <= max_retries {
            Decision::Retry { delay_ms: with_jitter(backoff_ms(base, attempt), seed) }
        } else {
            Decision::Fail(EmbeddingError::ApiError(detail))
        },
        Outcome::Unreachable(detail) => if attempt <= max_retries {
            Decision::Retry { delay_ms: with_jitter(backoff_ms(base, attempt), seed) }
        } else {
            Decision::Fail(EmbeddingError::NetworkError(detail))
        },
    }
}

/// What an answer of the service with an HTTP status means.
pub fn outcome_of_status(status: u16, body_read: bool, detail: String) -> (outcome: Outcome)
    ensures
        outcome == outcome_of(status, body_read, detail),
{
    if 200 <= status && status <= 299 {
        if body_read {
            Outcome::Delivered
        } else {
            Outcome::Unparseable(detail)
        }
    } else if status == 401 {
        Outcome::Unauthorized
    } else if status == 429 {
        Outcome::RateLimited
    } else {
        Outcome::Rejected(detail)
    }
}

/// The fingerprint of a text.
pub fn cache_key(text: &str) -> (key: String)
    ensures
        key@ == fingerprint(text@),
{
    let digest = sha256(text.as_bytes());
    let hex = hex_encode(digest.as_slice());
    "emb_".to_owned().concat(hex.as_str())
}

/// What the cache gave for the texts of a batch, and the texts that are
/// still to be asked of the service.
pub struct BatchPlan {
    slots: Vec<Option<Vec<u32>>>,
    texts: Vec<String>,
    dimension: usize,
}

impl BatchPlan {
    #[verifier::type_invariant]
    spec fn consistent(self) -> bool {
        &&& self.texts@.len() == gaps(self.slots@).len()
        &&& forall|i: int|
            0 <= i < self.slots@.len() ==> ((#[trigger] self.slots@[i]) matches Some(v) ==> v@.len()
                == self.dimension)
    }

    /// What the cache gave for each text of the batch, in order.
    pub closed spec fn slots(self) -> Seq<Option<Vec<u32>>> {
        self.slots@
    }

    /// The texts that the service is asked for, in the order of the batch.
    pub closed spec fn texts(self) -> Seq<String> {
        self.texts@
    }

    /// The dimension that the vectors of the batch must have.
    pub closed spec fn dimension(self) -> usize {
        self.dimension
    }

    /// The request that is sent to the service.
    pub fn request(&self) -> (request: EmbeddingRequest)
        ensures
            request.model is None,
            request.input matches crate::embedding::models::EmbeddingInput::Batch(texts)
                && texts@ == self.texts(),
    {
        EmbeddingRequest::batch(self.texts.clone())
    }

    /// Number of texts that the service is asked for.
    pub fn pending(&self) -> (n: usize)
        ensures
            n == self.texts().len(),
    {
        self.texts.len()
    }
}

/// How a batch begins.
pub enum Start {
    /// The batch is rejected.
    Rejected(ContextError),
    /// The cache held every vector: nothing is asked of the service.
    Complete(Vec<Vec<u32>>),
    /// The circuit breaker refuses the call.
    Unavailable(ContextError),
    /// The service is to be asked.
    Ask(BatchPlan),
}

/// The gaps of slots are positions of the slots that hold nothing, in
/// rising order; slots without gaps all hold a vector.
pub proof fn lemma_gaps_bounds(slots: Seq<Option<Vec<u32>>>)
    ensures
        gaps(slots).len() <= slots.len(),
        forall|k: int|
            0 <= k < gaps(slots).len() ==> 0 <= #[trigger] gaps(slots)[k] < slots.len()
                && slots[gaps(slots)[k]] is None,
        forall|a: int, b: int|
            0 <= a < b < gaps(slots).len() ==> #[trigger] gaps(slots)[a] < #[trigger] gaps(slots)[b],
        gaps(slots).len() == 0 ==> forall|i: int| 0 <= i < slots.len() ==> (#[trigger] slots[i]) is Some,
    decreases slots.len(),
{
    if slots.len() > 0 {
        let front = slots.drop_last();
        lemma_gaps_bounds(front);
        assert forall|k: int| 0 <= k < gaps(slots).len() implies 0 <= #[trigger] gaps(slots)[k]
            < slots.len() && slots[gaps(slots)[k]] is None by {
            if k < gaps(front).len() {
                assert(gaps(slots)[k] == gaps(front)[k]);
                assert(front[gaps(front)[k]] == slots[gaps(front)[k]]);
            }
        }
        assert forall|a: int, b: int| 0 <= a < b < gaps(slots).len() implies #[trigger] gaps(
            slots,
        )[a] < #[trigger] gaps(slots)[b] by {
            assert(gaps(slots)[a] == gaps(front)[a]);
            if b < gaps(front).len() {
                assert(gaps(slots)[b] == gaps(front)[b]);
            }
        }
        if gaps(slots).len() == 0 {
            assert forall|i: int| 0 <= i < slots.len() implies (#[trigger] slots[i]) is Some by {
                if i < front.len() {
                    assert(front[i] == slots[i]);
                }
            }
        }
    }
}

/// The gaps of a prefix of slots are the first gaps of the slots.
pub proof fn lemma_gaps_prefix(slots: Seq<Option<Vec<u32>>>, n: int)
    requires
        0 <= n <= slots.len(),
    ensures
        gaps(slots.take(n)).len() <= gaps(slots).len(),
        forall|k: int|
            0 <= k < gaps(slots.take(n)).len() ==> #[trigger] gaps(slots.take(n))[k] == gaps(
                slots,
            )[k],
    decreases slots.len() - n,
{
    if n < slots.len() {
        lemma_gaps_prefix(slots, n + 1);
        assert(slots.take(n + 1).drop_last() =~= slots.take(n));
        assert forall|k: int| 0 <= k < gaps(slots.take(n)).len() implies #[trigger] gaps(
            slots.take(n),
        )[k] == gaps(slots)[k] by {
            assert(gaps(slots.take(n))[k] == gaps(slots.take(n + 1))[k]);
        }
    } else {
        assert(slots.take(n) =~= slots);
    }
}

/// How a batch of vectors of a dimension begins, given what the cache gave
/// for each text and whether the circuit breaker admits a call. Where the
/// cache gave every vector the batch is complete and the circuit breaker
/// does not count.
pub fn plan(
    texts: &Vec<String>,
    slots: Vec<Option<Vec<u32>>>,
    admitted: bool,
    dimension: usize,
) -> (start: Start)
    requires
        slots@.len() == texts@.len(),
        forall|i: int|
            0 <= i < slots@.len() ==> ((#[trigger] slots@[i]) matches Some(v) ==> v@.len()
                == dimension),
    ensures
        match start {
            Start::Rejected(_) => false,
            Start::Complete(vectors) => gaps(slots@).len() == 0 && vectors@.len() == slots@.len()
                && forall|i: int| 0 <= i < slots@.len() ==> slots@[i] == Some(#[trigger] vectors@[i]),
            Start::Unavailable(e) => gaps(slots@).len() > 0 && !admitted && e
                matches ContextError::Embedding(EmbeddingError::ServiceUnavailable(_)),
            Start::Ask(plan) => gaps(slots@).len() > 0 && admitted && plan.slots() == slots@
                && plan.dimension() == dimension && plan.texts().len() == gaps(slots@).len()
                && forall|k: int|
                0 <= k < plan.texts().len() ==> #[trigger] plan.texts()[k] == texts@[gaps(slots@)[k]],
        },
{
    let mut wanted: Vec<String> = Vec::new();
    let mut i: usize = 0;
    while i < slots.len()
        invariant
            i <= slots@.len(),
            slots@.len() == texts@.len(),
            wanted@.len() == gaps(slots@.take(i as int)).len(),
            forall|k: int|
                0 <= k < wanted@.len() ==> #[trigger] wanted@[k] == texts@[gaps(
                    slots@.take(i as int),
                )[k]],
        decreases slots.len() - i,
    {
        proof {
            let upto = slots@.take(i + 1);
            assert(upto.drop_last() =~= slots@.take(i as int));
            assert(upto.last() == slots@[i as int]);
        }
        if slots[i].is_none() {
            wanted.push(texts[i].clone());
        }
        i = i + 1;
    }
    proof {
        assert(slots@.take(slots@.len() as int) =~= slots@);
        lemma_gaps_bounds(slots@);
    }
    if wanted.len() == 0 {
        let mut vectors: Vec<Vec<u32>> = Vec::new();
        let ghost given = slots@;
        for slot in it: slots
            invariant
                it.seq() == given,
                vectors@.len() == it.index(),
                forall|j: int| 0 <= j < given.len() ==> (#[trigger] given[j]) is Some,
                forall|j: int| 0 <= j < vectors@.len() ==> given[j] == Some(#[trigger] vectors@[j]),
        {
            match slot {
                Some(vector) => {
                    vectors.push(vector);
                },
                None => {
                    assert(given[it.index()] is Some);
                },
            }
        }
        Start::Complete(vectors)
    } else if !admitted {
        Start::Unavailable(
            ContextError::Embedding(
                EmbeddingError::ServiceUnavailable("Circuit breaker open".to_owned()),
            ),
        )
    } else {
        Start::Ask(BatchPlan { slots, texts: wanted, dimension })
    }
}

/// The logic of the embedding client.
pub struct EmbeddingClientV2 {
    config: EmbeddingConfig,
    dimension: usize,
    cache: Option<EmbeddingCache>,
    circuit_breaker: Option<CircuitBreaker>,
}

/// The entries of an optional cache; none where there is no cache.
pub open spec fn cached(cache: Option<EmbeddingCache>) -> Map<Seq<char>, Seq<u32>> {
    match cache {
        Some(cache) => cache.entries(),
        None => crate::embedding::cache::no_entries(),
    }
}

/// The circuit breaker `before` was asked for admission at some time,
/// answered `admitted`, and is `after` since. Where there is no circuit
/// breaker every call is admitted.
pub open spec fn breaker_asked(
    before: Option<CircuitBreaker>,
    after: Option<CircuitBreaker>,
    admitted: bool,
) -> bool {
    match before {
        None => admitted && after is None,
        Some(breaker) => after is Some && after->0.thresholds() == breaker.thresholds() && exists|
            now: u128,
        |
            admitted == admits(breaker.memory(), breaker.thresholds(), now) && after->0.memory()
                == after_request(breaker.memory(), breaker.thresholds(), now),
    }
}

/// What the client takes of what the cache gave: a vector of the
/// dimension of the embeddings, and nothing else.
pub open spec fn taken_of(given: Option<Vec<u32>>, dimension: usize) -> Option<Vec<u32>> {
    match given {
        Some(vector) => if vector@.len() == dimension {
            Some(vector)
        } else {
            None
        },
        None => None,
    }
}

/// `after` and `found` are what a lookup of `text` makes of the cache
/// `before`. Without a cache nothing is found. Else the cache is asked under
/// the fingerprint of the text and counts the lookup, as a hit where it gave
/// a vector and as a miss where it gave none; it answers with nothing but
/// what it holds, and keeps no entry that it did not hold. What is found is
/// what the client takes of what the cache gave.
pub open spec fn looked_up(
    before: Option<EmbeddingCache>,
    after: Option<EmbeddingCache>,
    text: Seq<char>,
    dimension: usize,
    found: Option<Vec<u32>>,
) -> bool {
    match before {
        None => after is None && found is None,
        Some(cache) => after is Some && among(after->0.entries(), cache.entries()) && exists|
            given: Option<Vec<u32>>,
        |
            found == #[trigger] taken_of(given, dimension) && answer_of(
                cache.entries(),
                fingerprint(text),
                given,
            ) && after->0.hits() == (if given is Some {
                cache.hits().wrapping_add(1)
            } else {
                cache.hits()
            }) && after->0.misses() == (if given is Some {
                cache.misses()
            } else {
                cache.misses().wrapping_add(1)
            }),
    }
}

/// `vector` is held under the fingerprint of `text`.
pub open spec fn held_for(entries: Map<Seq<char>, Seq<u32>>, text: Seq<char>, vector: Vec<u32>) -> bool {
    entries.contains_key(fingerprint(text)) && entries[fingerprint(text)] == vector@
}

impl EmbeddingClientV2 {
    /// The configuration of the client.
    pub closed spec fn config(self) -> EmbeddingConfig {
        self.config
    }

    /// The dimension of the embeddings.
    pub closed spec fn dimension(self) -> usize {
        self.dimension
    }

    /// The cache, where the client has one.
    pub closed spec fn cache(self) -> Option<EmbeddingCache> {
        self.cache
    }

    /// The circuit breaker, where the client has one.
    pub closed spec fn breaker(self) -> Option<CircuitBreaker> {
        self.circuit_breaker
    }

    /// A client without circuit breaker, with a cache where the
    /// configuration enables one, for embeddings of `EMBEDDING_DIMENSION`
    /// components. In a release build TLS may not go without verification of
    /// certificates.
    pub fn new(config: EmbeddingConfig, release_build: bool) -> (r: Result<Self, ContextError>)
        ensures
            match r {
                Ok(client) => !(release_build && config.tls_enabled && !config.tls_verify)
                    && client.config() == config && client.dimension() == EMBEDDING_DIMENSION
                    && client.breaker() is None && (client.cache() is Some
                    <==> config.cache_enabled) && cached(client.cache())
                    == crate::embedding::cache::no_entries(),
                Err(e) => release_build && config.tls_enabled && !config.tls_verify && e
                    matches ContextError::Embedding(EmbeddingError::ApiError(_)),
            },
    {
        if release_build && config.tls_enabled && !config.tls_verify {
            return Err(
                ContextError::Embedding(
                    EmbeddingError::ApiError(
                        "TLS verification cannot be disabled in release mode".to_owned(),
                    ),
                ),
            );
        }
        let cache = if config.cache_enabled {
            Some(
                EmbeddingCache::new(
                    config.cache_size,
                    core::time::Duration::from_secs(config.cache_ttl_secs),
                ),
            )
        } else {
            None
        };
        Ok(EmbeddingClientV2 { config, dimension: EMBEDDING_DIMENSION, cache, circuit_breaker: None })
    }

    /// The client with a circuit breaker of the given configuration.
    pub fn with_circuit_breaker(self, config: CircuitBreakerConfig) -> (client: Self)
        ensures
            client.config() == self.config(),
            client.dimension() == self.dimension(),
            client.cache() == self.cache(),
            client.breaker() is Some,
            client.breaker()->0.memory() == crate::vector_db::circuit_breaker::fresh(),
    {
        let mut client = self;
        client.circuit_breaker = Some(CircuitBreaker::new(config));
        client
    }

    /// The client with the given cache.
    pub fn with_cache(self, cache: EmbeddingCache) -> (client: Self)
        ensures
            client.config() == self.config(),
            client.dimension() == self.dimension(),
            client.cache() == Some(cache),
            client.breaker() == self.breaker(),
    {
        let mut client = self;
        client.cache = Some(cache);
        client
    }

    /// The client for embeddings of another dimension: that of the model
    /// that the service is configured for.
    pub fn with_dimension(self, dimension: usize) -> (client: Self)
        ensures
            client.config() == self.config(),
            client.dimension() == dimension,
            client.cache() == self.cache(),
            client.breaker() == self.breaker(),
    {
        let mut client = self;
        client.dimension = dimension;
        client
    }

    /// The dimension of the embeddings.
    pub fn embedding_dimension(&self) -> (dimension: usize)
        ensures
            dimension == self.dimension(),
    {
        self.dimension
    }

    /// The present state of the circuit breaker, where there is one.
    pub fn breaker_state(&self) -> (state: Option<crate::vector_db::circuit_breaker::CircuitState>)
        ensures
            match state {
                Some(state) => self.breaker() is Some && state == self.breaker()->0.memory().state,
                None => self.breaker() is None,
            },
    {
        match &self.circuit_breaker {
            Some(breaker) => Some(breaker.state()),
            None => None,
        }
    }

    /// Checks a batch: it may not be over the batch size, and every text
    /// must be accepted.
    pub fn check_batch(&self, texts: &Vec<String>) -> (r: Result<(), ContextError>)
        ensures
            r == batch_verdict(texts@, self.config().batch_size),
    {
        if texts.len() > self.config.batch_size {
            return Err(
                ContextError::Validation(
                    ValidationError::BatchTooLarge {
                        size: texts.len(),
                        max_size: self.config.batch_size,
                    },
                ),
            );
        }
        let mut i: usize = 0;
        proof {
            assert(texts@.skip(0) =~= texts@);
        }
        while i < texts.len()
            invariant
                i <= texts@.len(),
                texts@.len() <= self.config().batch_size,
                texts_verdict(texts@) == texts_verdict(texts@.skip(i as int)),
            decreases texts.len() - i,
        {
            proof {
                assert(texts@.skip(i as int)[0] == texts@[i as int]);
                assert(texts@.skip(i as int).drop_first() =~= texts@.skip(i + 1));
            }
            match InputValidator::validate_text(texts[i].as_str()) {
                Err(e) => {
                    return Err(ContextError::Validation(e));
                },
                Ok(_) => {},
            }
            i = i + 1;
        }
        Ok(())
    }

    /// Asks the cache for the vector of a text. A vector is taken only
    /// where it has the dimension of the embeddings. A client without cache
    /// finds nothing.
    pub fn lookup(&mut self, text: &str) -> (found: Option<Vec<u32>>)
        ensures
            final(self).config() == old(self).config(),
            final(self).dimension() == old(self).dimension(),
            final(self).breaker() == old(self).breaker(),
            looked_up(
                old(self).cache(),
                final(self).cache(),
                text@,
                old(self).dimension(),
                found,
            ),
    {
        let key = cache_key(text);
        let mut taken: Option<EmbeddingCache> = None;
        core::mem::swap(&mut taken, &mut self.cache);
        let given = match taken {
            Some(cache) => {
                let mut cache = cache;
                let given = cache.get(key.as_str());
                self.cache = Some(cache);
                given
            },
            None => None,
        };
        let found = Self::take_fitting(given, self.dimension);
        proof {
            if old(self).cache() is Some {
                assert(found == taken_of(given, old(self).dimension()));
            }
        }
        found
    }

    /// What the client takes of what the cache gave: a vector of the
    /// dimension of the embeddings, and nothing else.
    pub fn take_fitting(given: Option<Vec<u32>>, dimension: usize) -> (found: Option<Vec<u32>>)
        ensures
            found == taken_of(given, dimension),
    {
        match given {
            Some(vector) => if vector.len() == dimension {
                Some(vector)
            } else {
                None
            },
            None => None,
        }
    }

    /// Asks the cache for the vector of each text of a batch.
    pub fn consult_cache(&mut self, texts: &Vec<String>) -> (slots: Vec<Option<Vec<u32>>>)
        ensures
            final(self).config() == old(self).config(),
            final(self).dimension() == old(self).dimension(),
            final(self).breaker() == old(self).breaker(),
            final(self).cache() is Some <==> old(self).cache() is Some,
            among(cached(final(self).cache()), cached(old(self).cache())),
            slots@.len() == texts@.len(),
            forall|i: int|
                0 <= i < slots@.len() ==> ((#[trigger] slots@[i]) matches Some(v) ==> v@.len()
                    == old(self).dimension() && held_for(cached(old(self).cache()), texts@[i]@, v)),
    {
        let mut slots: Vec<Option<Vec<u32>>> = Vec::new();
        let mut i: usize = 0;
        while i < texts.len()
            invariant
                i <= texts@.len(),
                self.config() == old(self).config(),
                self.dimension() == old(self).dimension(),
                self.breaker() == old(self).breaker(),
                self.cache() is Some <==> old(self).cache() is Some,
                among(cached(self.cache()), cached(old(self).cache())),
                slots@.len() == i,
                forall|j: int|
                    0 <= j < i ==> ((#[trigger] slots@[j]) matches Some(v) ==> v@.len()
                        == old(self).dimension() && held_for(
                        cached(old(self).cache()),
                        texts@[j]@,
                        v,
                    )),
            decreases texts.len() - i,
        {
            let ghost before = cached(self.cache());
            let found = self.lookup(texts[i].as_str());
            proof {
                if found is Some {
                    assert(before.contains_key(fingerprint(texts@[i as int]@)));
                }
                assert forall|k: Seq<char>| #[trigger]
                    cached(self.cache()).contains_key(k) implies cached(
                    old(self).cache(),
                ).contains_key(k) && cached(self.cache())[k] == cached(old(self).cache())[k] by {
                    assert(before.contains_key(k));
                }
            }
            slots.push(found);
            i = i + 1;
        }
        slots
    }

    /// Asks the circuit breaker whether a call may go out now. A client
    /// without circuit breaker admits every call.
    pub fn ask_breaker(&mut self) -> (admitted: bool)
        ensures
            final(self).config() == old(self).config(),
            final(self).dimension() == old(self).dimension(),
            final(self).cache() == old(self).cache(),
            breaker_asked(old(self).breaker(), final(self).breaker(), admitted),
    {
        let mut taken: Option<CircuitBreaker> = None;
        core::mem::swap(&mut taken, &mut self.circuit_breaker);
        match taken {
            Some(breaker) => {
                let mut breaker = breaker;
                let admitted = breaker.allow_request();
                self.circuit_breaker = Some(breaker);
                admitted
            },
            None => true,
        }
    }
}

/// The answer of the service fits a request for `asked` texts: it holds
/// one vector for each, each of the dimension of the embeddings.
pub open spec fn answer_fits(asked: nat, answer: Seq<Vec<u32>>, dimension: usize) -> bool {
    &&& answer.len() == asked
    &&& forall|k: int| 0 <= k < answer.len() ==> (#[trigger] answer[k])@.len() == dimension
}

/// `e` is the failure of an answer that does not fit: of the number of
/// its vectors, else of the first vector of another dimension.
pub open spec fn answer_failure(
    asked: nat,
    answer: Seq<Vec<u32>>,
    dimension: usize,
    e: ContextError,
) -> bool {
    if answer.len() != asked {
        e matches ContextError::Embedding(EmbeddingError::ApiError(message)) && message@
            == "Missing embedding in response"@
    } else {
        exists|k: int|
            0 <= k < answer.len() && (#[trigger] answer[k])@.len() != dimension && (forall|
                j: int,
            |
                0 <= j < k ==> (#[trigger] answer[j])@.len() == dimension) && e
                == ContextError::Validation(
                ValidationError::InvalidVectorDimension {
                    actual: answer[k]@.len() as usize,
                    expected: dimension,
                },
            )
    }
}

/// `vectors` are the vectors of a batch in the order of its texts: for a
/// text whose vector the cache gave, that vector, and for each other text
/// the next vector of the answer.
pub open spec fn stitched(
    slots: Seq<Option<Vec<u32>>>,
    answer: Seq<Vec<u32>>,
    vectors: Seq<Vec<u32>>,
) -> bool {
    &&& vectors.len() == slots.len()
    &&& forall|i: int|
        0 <= i < slots.len() ==> (#[trigger] vectors[i])@ == match slots[i] {
            Some(v) => v@,
            None => answer[gaps(slots.take(i)).len() as int]@,
        }
}

/// Every entry of `after` was in `before` or is the vector of the answer
/// for one of the texts, under the fingerprint of that text.
pub open spec fn filled_from(
    before: Map<Seq<char>, Seq<u32>>,
    after: Map<Seq<char>, Seq<u32>>,
    texts: Seq<String>,
    answer: Seq<Vec<u32>>,
) -> bool {
    forall|key: Seq<char>| #[trigger]
        after.contains_key(key) ==> (before.contains_key(key) && before[key] == after[key]) || exists|
            k: int,
        |
            0 <= k < texts.len() && k < answer.len() && key == fingerprint(#[trigger] texts[k]@)
                && after[key] == answer[k]@
}

impl EmbeddingClientV2 {
    /// Begins a batch: the batch is checked, the cache is asked for each
    /// text, and where a vector is missing the circuit breaker is asked for
    /// admission. A vector that the cache gives is not asked of the service
    /// again.
    pub fn begin_batch(&mut self, texts: &Vec<String>) -> (start: Start)
        ensures
            final(self).config() == old(self).config(),
            final(self).dimension() == old(self).dimension(),
            final(self).cache() is Some <==> old(self).cache() is Some,
            final(self).breaker() is Some <==> old(self).breaker() is Some,
            among(cached(final(self).cache()), cached(old(self).cache())),
            match start {
                Start::Rejected(e) => batch_verdict(texts@, old(self).config().batch_size) == Err::<
                    (),
                    ContextError,
                >(e) && final(self).breaker() == old(self).breaker() && final(self).cache() == old(
                    self,
                ).cache(),
                Start::Complete(vectors) => batch_verdict(texts@, old(self).config().batch_size) is Ok
                    && final(self).breaker() == old(self).breaker() && vectors@.len() == texts@.len()
                    && forall|i: int|
                    0 <= i < vectors@.len() ==> (#[trigger] vectors@[i])@.len() == old(self).dimension()
                        && held_for(cached(old(self).cache()), texts@[i]@, vectors@[i]),
                Start::Unavailable(e) => batch_verdict(texts@, old(self).config().batch_size) is Ok
                    && breaker_asked(old(self).breaker(), final(self).breaker(), false) && e
                    matches ContextError::Embedding(EmbeddingError::ServiceUnavailable(_)),
                Start::Ask(plan) => batch_verdict(texts@, old(self).config().batch_size) is Ok
                    && breaker_asked(old(self).breaker(), final(self).breaker(), true)
                    && plan.dimension() == old(self).dimension() && plan.slots().len()
                    == texts@.len() && plan.texts().len() == gaps(
                    plan.slots(),
                ).len() && plan.texts().len() > 0 && (forall|k: int|
                    0 <= k < plan.texts().len() ==> #[trigger] plan.texts()[k] == texts@[gaps(
                        plan.slots(),
                    )[k]]) && forall|i: int|
                    0 <= i < plan.slots().len() ==> ((#[trigger] plan.slots()[i]) matches Some(v)
                        ==> v@.len() == old(self).dimension() && held_for(
                        cached(old(self).cache()),
                        texts@[i]@,
                        v,
                    )),
            },
    {
        match self.check_batch(texts) {
            Err(e) => {
                return Start::Rejected(e);
            },
            Ok(_) => {},
        }
        let slots = self.consult_cache(texts);
        let ghost given = slots@;
        proof {
            lemma_gaps_bounds(given);
        }
        let mut i: usize = 0;
        let mut complete = true;
        while i < slots.len()
            invariant
                i <= slots@.len(),
                complete == (forall|j: int| 0 <= j < i ==> (#[trigger] slots@[j]) is Some),
            decreases slots.len() - i,
        {
            if slots[i].is_none() {
                complete = false;
            }
            i = i + 1;
        }
        let admitted = if complete {
            true
        } else {
            self.ask_breaker()
        };
        proof {
            if complete && gaps(given).len() > 0 {
                assert(given[gaps(given)[0]] is None);
            }
        }
        let start = plan(texts, slots, admitted, self.dimension);
        proof {
            if start is Complete {
                let vectors = start->Complete_0;
                assert forall|i: int| 0 <= i < vectors@.len() implies (#[trigger] vectors@[i])@.len()
                    == old(self).dimension() && held_for(
                    cached(old(self).cache()),
                    texts@[i]@,
                    vectors@[i],
                ) by {
                    assert(given[i] == Some(vectors@[i]));
                }
            }
        }
        start
    }

    /// Begins the embedding of one text, as the batch of that text without
    /// regard to the batch size.
    pub fn begin_single(&mut self, text: &str) -> (start: Start)
        ensures
            final(self).config() == old(self).config(),
            final(self).dimension() == old(self).dimension(),
            final(self).cache() is Some <==> old(self).cache() is Some,
            final(self).breaker() is Some <==> old(self).breaker() is Some,
            among(cached(final(self).cache()), cached(old(self).cache())),
            match start {
                Start::Rejected(e) => text_verdict(text@) matches Err(v) && e
                    == ContextError::Validation(v) && final(self).breaker() == old(self).breaker()
                    && final(self).cache() == old(self).cache(),
                Start::Complete(vectors) => text_verdict(text@) is Ok && final(self).breaker() == old(self).breaker() && vectors@.len() == 1 && vectors@[0]@.len() == old(self).dimension()
                    && held_for(cached(old(self).cache()), text@, vectors@[0]),
                Start::Unavailable(e) => text_verdict(text@) is Ok && breaker_asked(
                    old(self).breaker(),
                    final(self).breaker(),
                    false,
                ) && e matches ContextError::Embedding(EmbeddingError::ServiceUnavailable(_)),
                Start::Ask(plan) => text_verdict(text@) is Ok && breaker_asked(
                    old(self).breaker(),
                    final(self).breaker(),
                    true,
                ) && plan.dimension() == old(self).dimension() && plan.slots().len() == 1
                    && plan.slots()[0] is None && plan.texts().len() == 1 && plan.texts()[0]@
                    == text@,
            },
    {
        match InputValidator::validate_text(text) {
            Err(e) => {
                return Start::Rejected(ContextError::Validation(e));
            },
            Ok(_) => {},
        }
        let found = self.lookup(text);
        let complete = found.is_some();
        let ghost given = seq![found];
        let mut slots: Vec<Option<Vec<u32>>> = Vec::new();
        slots.push(found);
        let mut texts: Vec<String> = Vec::new();
        texts.push(text.to_owned());
        let admitted = if complete {
            true
        } else {
            self.ask_breaker()
        };
        proof {
            assert(slots@ =~= given);
            assert(given.drop_last() =~= Seq::<Option<Vec<u32>>>::empty());
            lemma_gaps_bounds(given);
        }
        let start = plan(&texts, slots, admitted, self.dimension);
        proof {
            if start is Complete {
                assert(given[0] == Some(start->Complete_0@[0]));
            }
            if start is Ask {
                assert(gaps(given)[0] == 0);
            }
        }
        start
    }

    /// Takes note of the outcome of an attempt in the circuit breaker and
    /// says what to do next. The jitter of a delay is drawn at random.
    pub fn on_outcome(&mut self, attempt: u32, outcome: Outcome) -> (decision: Decision)
        ensures
            final(self).config() == old(self).config(),
            final(self).dimension() == old(self).dimension(),
            final(self).cache() == old(self).cache(),
            final(self).breaker() is Some <==> old(self).breaker() is Some,
            exists|seed: u64|
                decision == decision_of(outcome, attempt, old(self).config().max_retries, seed),
            old(self).breaker() matches Some(breaker) ==> final(self).breaker()->0.thresholds()
                == breaker.thresholds() && exists|now: u128|
                final(self).breaker()->0.memory() == breaker_after(
                    outcome,
                    breaker.memory(),
                    breaker.thresholds(),
                    now,
                ),
    {
        let mut taken: Option<CircuitBreaker> = None;
        core::mem::swap(&mut taken, &mut self.circuit_breaker);
        match taken {
            Some(breaker) => {
                let mut breaker = breaker;
                let ghost before = breaker;
                match &outcome {
                    Outcome::Delivered => {
                        breaker.record_success();
                        assert(breaker.memory() == breaker_after(
                            outcome,
                            before.memory(),
                            before.thresholds(),
                            0,
                        ));
                    },
                    Outcome::Unauthorized => {
                        assert(breaker.memory() == breaker_after(
                            outcome,
                            before.memory(),
                            before.thresholds(),
                            0,
                        ));
                    },
                    _ => {
                        breaker.record_failure();
                        let ghost now = choose|now: u128|
                            breaker.memory() == after_failure(
                                before.memory(),
                                before.thresholds(),
                                now,
                            );
                        assert(breaker.memory() == breaker_after(
                            outcome,
                            before.memory(),
                            before.thresholds(),
                            now,
                        ));
                    },
                }
                self.circuit_breaker = Some(breaker);
            },
            None => {},
        }
        let seed = random_number();
        let decision = decide(outcome, attempt, self.config.max_retries, seed);
        assert(decision == decision_of(outcome, attempt, old(self).config().max_retries, seed));
        decision
    }

    /// Checks the answer of the service against the plan: one vector for
    /// each text asked for, each of the dimension of the embeddings.
    pub fn check_answer(plan: &BatchPlan, answer: &Vec<Vec<u32>>) -> (r: Result<(), ContextError>)
        ensures
            match r {
                Ok(_) => answer_fits(plan.texts().len(), answer@, plan.dimension()),
                Err(e) => !answer_fits(plan.texts().len(), answer@, plan.dimension()) && answer_failure(
                    plan.texts().len(),
                    answer@,
                    plan.dimension(),
                    e,
                ),
            },
    {
        if answer.len() != plan.texts.len() {
            return Err(
                ContextError::Embedding(
                    EmbeddingError::ApiError("Missing embedding in response".to_owned()),
                ),
            );
        }
        let mut k: usize = 0;
        while k < answer.len()
            invariant
                k <= answer@.len(),
                answer@.len() == plan.texts().len(),
                forall|j: int| 0 <= j < k ==> (#[trigger] answer@[j])@.len() == plan.dimension(),
            decreases answer.len() - k,
        {
            if answer[k].len() != plan.dimension {
                return Err(
                    ContextError::Validation(
                        ValidationError::InvalidVectorDimension {
                            actual: answer[k].len(),
                            expected: plan.dimension,
                        },
                    ),
                );
            }
            k = k + 1;
        }
        Ok(())
    }

    /// Completes a batch with the answer of the service. An answer that
    /// does not fit the request is a failure and leaves the cache as it was.
    /// Else the vectors of the answer go into the cache under the
    /// fingerprints of their texts, and the vectors of the batch are given
    /// in the order of its texts, those of the cache in their places.
    pub fn complete_batch(&mut self, plan: BatchPlan, answer: Vec<Vec<u32>>) -> (r: Result<
        Vec<Vec<u32>>,
        ContextError,
    >)
        ensures
            final(self).config() == old(self).config(),
            final(self).dimension() == old(self).dimension(),
            final(self).breaker() == old(self).breaker(),
            final(self).cache() is Some <==> old(self).cache() is Some,
            match r {
                Err(e) => !answer_fits(plan.texts().len(), answer@, plan.dimension()) && answer_failure(
                    plan.texts().len(),
                    answer@,
                    plan.dimension(),
                    e,
                ) && final(self).cache() == old(self).cache(),
                Ok(vectors) => answer_fits(plan.texts().len(), answer@, plan.dimension()) && stitched(
                    plan.slots(),
                    answer@,
                    vectors@,
                ) && (forall|i: int|
                    0 <= i < vectors@.len() ==> (#[trigger] vectors@[i])@.len() == plan.dimension())
                    && filled_from(
                    cached(old(self).cache()),
                    cached(final(self).cache()),
                    plan.texts(),
                    answer@,
                ),
            },
    {
        proof {
            use_type_invariant(&plan);
            lemma_gaps_bounds(plan.slots@);
        }
        match Self::check_answer(&plan, &answer) {
            Err(e) => {
                return Err(e);
            },
            Ok(_) => {},
        }
        let ghost before = cached(self.cache());
        let mut k: usize = 0;
        while k < plan.texts.len()
            invariant
                k <= plan.texts@.len(),
                plan.texts@.len() == answer@.len(),
                self.config() == old(self).config(),
                self.dimension() == old(self).dimension(),
                self.breaker() == old(self).breaker(),
                self.cache() is Some <==> old(self).cache() is Some,
                filled_from(before, cached(self.cache()), plan.texts@, answer@),
            decreases plan.texts.len() - k,
        {
            let key = cache_key(plan.texts[k].as_str());
            let mut taken: Option<EmbeddingCache> = None;
            core::mem::swap(&mut taken, &mut self.cache);
            match taken {
                Some(cache) => {
                    let mut cache = cache;
                    let ghost held = cache.entries();
                    let vector = answer[k].clone();
                    cache.put(key, vector);
                    proof {
                        assert forall|key: Seq<char>| #[trigger]
                            cache.entries().contains_key(key) implies (before.contains_key(key)
                            && before[key] == cache.entries()[key]) || exists|j: int|
                            0 <= j < plan.texts@.len() && j < answer@.len() && key == fingerprint(
                                #[trigger] plan.texts@[j]@,
                            ) && cache.entries()[key] == answer@[j]@ by {
                            if key == fingerprint(plan.texts@[k as int]@) {
                                assert(cache.entries()[key] == answer@[k as int]@);
                            } else {
                                assert(held.contains_key(key));
                            }
                        }
                    }
                    self.cache = Some(cache);
                },
                None => {},
            }
            k = k + 1;
        }
        let ghost slots = plan.slots@;
        let mut vectors: Vec<Vec<u32>> = Vec::new();
        let mut next: usize = 0;
        let mut i: usize = 0;
        let fetched = answer.len();
        while i < plan.slots.len()
            invariant
                i <= slots.len(),
                fetched == answer@.len(),
                slots == plan.slots@,
                gaps(slots).len() == answer@.len(),
                vectors@.len() == i,
                next == gaps(slots.take(i as int)).len(),
                next <= answer@.len(),
                forall|j: int|
                    0 <= j < slots.len() ==> ((#[trigger] slots[j]) matches Some(v) ==> v@.len()
                        == plan.dimension()),
                forall|j: int|
                    0 <= j < answer@.len() ==> (#[trigger] answer@[j])@.len() == plan.dimension(),
                forall|j: int|
                    0 <= j < i ==> (#[trigger] vectors@[j])@ == match slots[j] {
                        Some(v) => v@,
                        None => answer@[gaps(slots.take(j)).len() as int]@,
                    },
                forall|j: int|
                    0 <= j < i ==> (#[trigger] vectors@[j])@.len() == plan.dimension(),
            decreases plan.slots.len() - i,
        {
            proof {
                let upto = slots.take(i + 1);
                assert(upto.drop_last() =~= slots.take(i as int));
                assert(upto.last() == slots[i as int]);
                lemma_gaps_prefix(slots, i + 1);
                lemma_gaps_prefix(slots, i as int);
            }
            match &plan.slots[i] {
                Some(vector) => {
                    vectors.push(vector.clone());
                },
                None => {
                    proof {
                        assert(slots[i as int] is None);
                        assert(gaps(slots.take(i + 1)) == gaps(slots.take(i as int)).push(
                            i as int,
                        ));
                        assert(gaps(slots.take(i + 1)).len() <= gaps(slots).len());
                    }
                    vectors.push(answer[next].clone());
                    next = next + 1;
                },
            }
            i = i + 1;
        }
        Ok(vectors)
    }

    /// Completes the embedding of one text with the vector that the service
    /// answered: the vector is checked and cached as the answer to a batch
    /// is, and given back. For a plan of several texts the vector of the
    /// last text is given.
    pub fn complete_single(&mut self, plan: BatchPlan, answer: Vec<u32>) -> (r: Result<
        Vec<u32>,
        ContextError,
    >)
        ensures
            final(self).config() == old(self).config(),
            final(self).dimension() == old(self).dimension(),
            final(self).breaker() == old(self).breaker(),
            final(self).cache() is Some <==> old(self).cache() is Some,
            match r {
                Err(e) => !answer_fits(plan.texts().len(), seq![answer], plan.dimension()) && answer_failure(
                    plan.texts().len(),
                    seq![answer],
                    plan.dimension(),
                    e,
                ) && final(self).cache() == old(self).cache(),
                Ok(vector) => answer_fits(plan.texts().len(), seq![answer], plan.dimension()) && vector@.len()
                    == plan.dimension() && vector@ == (match plan.slots().last() {
                    Some(given) => given@,
                    None => answer@,
                }) && filled_from(
                    cached(old(self).cache()),
                    cached(final(self).cache()),
                    plan.texts(),
                    seq![answer],
                ),
            },
    {
        let ghost slots = plan.slots();
        proof {
            use_type_invariant(&plan);
            lemma_gaps_bounds(slots);
        }
        let mut answers: Vec<Vec<u32>> = Vec::new();
        answers.push(answer);
        assert(answers@ =~= seq![answer]);
        match self.complete_batch(plan, answers) {
            Err(e) => Err(e),
            Ok(vectors) => {
                let mut vectors = vectors;
                let ghost all = vectors@;
                proof {
                    let last = slots.len() - 1;
                    assert(gaps(slots).len() == 1);
                    assert(slots.len() >= 1);
                    assert(slots.take(last) =~= slots.drop_last());
                    if slots[last] is None {
                        assert(gaps(slots) == gaps(slots.drop_last()).push(last));
                        assert(gaps(slots.take(last)).len() == 0);
                    }
                    assert(all[last]@ == match slots[last] {
                        Some(given) => given@,
                        None => answer@,
                    });
                }
                match vectors.pop() {
                    Some(vector) => Ok(vector),
                    None => Err(
                        ContextError::Embedding(
                            EmbeddingError::ApiError("No embedding in response".to_owned()),
                        ),
                    ),
                }
            },
        }
    }
}

/// Another name of `EmbeddingClientV2`.
pub type EmbeddingClient = EmbeddingClientV2;

} // verus!
