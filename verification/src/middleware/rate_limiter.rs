//! Request rate limiting per client: so many requests in each window of
//! time.
//!
//! The records live in a concurrent map of the `dashmap` crate, keyed by
//! client. Time is read from a monotonic clock, in milliseconds since the
//! limiter was made.

use vstd::prelude::*;
use crate::time::{millis_of, millis_since};

verus! {

/// Configuration of the rate limit.
#[derive(Debug, Clone)]
pub struct RateLimitConfig {
    /// Most requests of a client in one window.
    pub max_requests: usize,
    /// Length of a window.
    pub window_duration: core::time::Duration,
    /// Whether requests are limited at all.
    pub enabled: bool,
}

impl Default for RateLimitConfig {
    fn default() -> (config: Self)
        ensures
            config.max_requests == 100,
            millis_of(config.window_duration) == 60_000,
            config.enabled,
    {
        RateLimitConfig {
            max_requests: 100,
            window_duration: core::time::Duration::from_secs(60),
            enabled: true,
        }
    }
}

/// Why a request was not admitted.
#[derive(Debug, Clone)]
pub enum RateLimitError {
    LimitExceeded { retry_after: core::time::Duration, limit: usize },
}

/// Figures of the rate limiter.
#[derive(Debug, Clone)]
pub struct RateLimitStats {
    pub total_clients: usize,
    pub total_requests: usize,
    pub config: RateLimitConfig,
}

/// The requests of a client in its present window.
#[derive(Debug, Clone, Copy, PartialEq, Eq, Structural)]
pub struct RequestRecord {
    pub count: usize,
    /// When the window began, in milliseconds on the limiter's clock.
    pub window_start: u128,
}

/// The records that a map holds, by client.
pub uninterp spec fn recorded(map: dashmap::DashMap<String, RequestRecord>) -> Map<
    Seq<char>,
    RequestRecord,
>;

/// No records.
pub open spec fn no_records() -> Map<Seq<char>, RequestRecord> {
    Map::empty()
}

/// `entries` lists each client of `records` once, with its record.
pub open spec fn listed_records(
    records: Map<Seq<char>, RequestRecord>,
    entries: Seq<(String, RequestRecord)>,
) -> bool {
    &&& forall|i: int|
        0 <= i < entries.len() ==> records.contains_key((#[trigger] entries[i]).0@)
            && records[entries[i].0@] == entries[i].1
    &&& forall|i: int, j: int|
        0 <= i < j < entries.len() ==> (#[trigger] entries[i]).0@ != (#[trigger] entries[j]).0@
    &&& forall|client: Seq<char>| #[trigger]
        records.contains_key(client) ==> exists|i: int|
            0 <= i < entries.len() && (#[trigger] entries[i]).0@ == client
}

/// `found` is the record of `client` in `records`, if there is one.
pub open spec fn record_of(
    records: Map<Seq<char>, RequestRecord>,
    client: Seq<char>,
    found: Option<RequestRecord>,
) -> bool {
    match found {
        Some(record) => records.contains_key(client) && records[client] == record,
        None => !records.contains_key(client),
    }
}

/// `DashMap::new`: a map that holds nothing.
#[verifier::external_body]
fn records_new() -> (map: dashmap::DashMap<String, RequestRecord>)
    ensures
        recorded(map) == no_records(),
{
    dashmap::DashMap::new()
}

/// `DashMap::get`: a copy of the record under the key, if there is one.
#[verifier::external_body]
fn records_get(map: &dashmap::DashMap<String, RequestRecord>, client: &str) -> (found: Option<
    RequestRecord,
>)
    ensures
        record_of(recorded(*map), client@, found),
{
    match map.get(client) {
        Some(entry) => Some(*entry.value()),
        None => None,
    }
}

/// `DashMap::insert`: the map then holds the record under the key, and
/// all else as before.
#[verifier::external_body]
fn records_insert(
    map: &mut dashmap::DashMap<String, RequestRecord>,
    client: String,
    record: RequestRecord,
)
    ensures
        recorded(*final(map)) == recorded(*old(map)).insert(client@, record),
{
    map.insert(client, record);
}

/// `DashMap::remove`: the map then holds nothing under the key, and all
/// else as before.
#[verifier::external_body]
fn records_remove(map: &mut dashmap::DashMap<String, RequestRecord>, client: &str)
    ensures
        recorded(*final(map)) == recorded(*old(map)).remove(client@),
{
    map.remove(client);
}

/// `DashMap::iter`, each entry read as a copy of its key and its record:
/// every key of the map once, in no stated order.
#[verifier::external_body]
fn records_list(map: &dashmap::DashMap<String, RequestRecord>) -> (entries: Vec<
    (String, RequestRecord),
>)
    ensures
        listed_records(recorded(*map), entries@),
{
    let mut entries = Vec::new();
    for entry in map.iter() {
        entries.push((entry.key().clone(), *entry.value()));
    }
    entries
}

/// Whether the window of a record has run out at `now`.
pub open spec fn window_over(record: RequestRecord, window_ms: nat, now: u128) -> bool {
    now >= record.window_start && now - record.window_start >= window_ms
}

/// The record that a request at `now` is counted in: the client's own
/// where its window still runs, else a new one that begins at `now`.
pub open spec fn current_record(prior: Option<RequestRecord>, window_ms: nat, now: u128) -> RequestRecord {
    match prior {
        Some(record) => if window_over(record, window_ms, now) {
            RequestRecord { count: 0, window_start: now }
        } else {
            record
        },
        None => RequestRecord { count: 0, window_start: now },
    }
}

/// Whether a request at `now` is admitted.
pub open spec fn admitted(
    prior: Option<RequestRecord>,
    max_requests: usize,
    window_ms: nat,
    now: u128,
) -> bool {
    current_record(prior, window_ms, now).count < max_requests
}

/// The record of a client after a request at `now`: the request is
/// counted where it is admitted.
pub open spec fn record_after(
    prior: Option<RequestRecord>,
    max_requests: usize,
    window_ms: nat,
    now: u128,
) -> RequestRecord {
    let current = current_record(prior, window_ms, now);
    if current.count < max_requests {
        RequestRecord { count: (current.count + 1) as usize, ..current }
    } else {
        current
    }
}

/// The time until the window of a refused request runs out, in
/// milliseconds, and never more than `u64::MAX`.
pub open spec fn wait_after(prior: Option<RequestRecord>, window_ms: nat, now: u128) -> u64 {
    let current = current_record(prior, window_ms, now);
    let elapsed = if now >= current.window_start {
        (now - current.window_start) as nat
    } else {
        0
    };
    let left = if window_ms >= elapsed {
        (window_ms - elapsed) as nat
    } else {
        0
    };
    if left > u64::MAX {
        u64::MAX
    } else {
        left as u64
    }
}

/// The record that a request at `now` is counted in, counted where it is
/// admitted, and the verdict on the request.
pub fn count_request(prior: Option<RequestRecord>, max_requests: usize, window_ms: u128, now: u128) -> (out:
    (RequestRecord, Result<(), u64>))
    ensures
        out.0 == record_after(prior, max_requests, window_ms as nat, now),
        out.1 == if admitted(prior, max_requests, window_ms as nat, now) {
            Ok::<(), u64>(())
        } else {
            Err(wait_after(prior, window_ms as nat, now))
        },
{
    let current = match prior {
        Some(record) => if now >= record.window_start && now - record.window_start >= window_ms {
            RequestRecord { count: 0, window_start: now }
        } else {
            record
        },
        None => RequestRecord { count: 0, window_start: now },
    };
    if current.count >= max_requests {
        let elapsed = if now >= current.window_start {
            now - current.window_start
        } else {
            0
        };
        let left = if window_ms >= elapsed {
            window_ms - elapsed
        } else {
            0
        };
        let wait = if left > u64::MAX as u128 {
            u64::MAX
        } else {
            left as u64
        };
        (current, Err(wait))
    } else {
        (RequestRecord { count: current.count + 1, window_start: current.window_start }, Ok(()))
    }
}

/// The rate limiter of the HTTP interface.
pub struct RateLimiter {
    config: RateLimitConfig,
    records: dashmap::DashMap<String, RequestRecord>,
    origin: std::time::Instant,
}

impl RateLimiter {
    /// The records of the clients.
    pub closed spec fn records(self) -> Map<Seq<char>, RequestRecord> {
        recorded(self.records)
    }

    /// Most requests of a client in one window.
    pub closed spec fn max_requests(self) -> usize {
        self.config.max_requests
    }

    /// Length of a window, in milliseconds.
    pub closed spec fn window_ms(self) -> nat {
        millis_of(self.config.window_duration)
    }

    /// Whether requests are limited at all.
    pub closed spec fn enabled(self) -> bool {
        self.config.enabled
    }

    /// `after` and `r` are what the check of a request of `client` at
    /// `now` makes of the limiter `before`. A limiter that is off admits the
    /// request and counts nothing. Else the request is counted in the
    /// client's record where it is admitted, and refused with the time to
    /// wait where it is not.
    pub open spec fn checked(
        before: Self,
        after: Self,
        client: Seq<char>,
        now: u128,
        r: Result<(), RateLimitError>,
    ) -> bool {
        let prior = if before.records().contains_key(client) {
            Some(before.records()[client])
        } else {
            None
        };
        &&& after.max_requests() == before.max_requests()
        &&& after.window_ms() == before.window_ms()
        &&& after.enabled() == before.enabled()
        &&& !before.enabled() ==> r is Ok && after.records() == before.records()
        &&& before.enabled() ==> {
            &&& after.records() == before.records().insert(
                client,
                record_after(prior, before.max_requests(), before.window_ms(), now),
            )
            &&& r is Ok <==> admitted(prior, before.max_requests(), before.window_ms(), now)
            &&& r matches Err(RateLimitError::LimitExceeded { retry_after, limit }) ==> limit
                == before.max_requests() && millis_of(retry_after) == wait_after(
                prior,
                before.window_ms(),
                now,
            )
        }
    }

    /// `usage` is the usage of `client` at `now`: the requests in its
    /// window and the milliseconds since the window began, or nothing where
    /// the client has no record.
    pub open spec fn usage_at(self, client: Seq<char>, now: u128, usage: Option<(usize, u128)>) -> bool {
        match usage {
            Some((count, elapsed)) => self.records().contains_key(client) && count
                == self.records()[client].count && elapsed == if now
                >= self.records()[client].window_start {
                (now - self.records()[client].window_start) as u128
            } else {
                0u128
            },
            None => !self.records().contains_key(client),
        }
    }

    /// `after` is the limiter `before` without the records whose window
    /// has run out at `now`.
    pub open spec fn swept(before: Self, after: Self, now: u128) -> bool {
        &&& after.max_requests() == before.max_requests()
        &&& after.window_ms() == before.window_ms()
        &&& after.enabled() == before.enabled()
        &&& forall|client: Seq<char>|
            after.records().contains_key(client) <==> before.records().contains_key(client)
                && !window_over(before.records()[client], before.window_ms(), now)
        &&& forall|client: Seq<char>| #[trigger]
            after.records().contains_key(client) ==> after.records()[client]
                == before.records()[client]
    }

    /// A limiter without records.
    pub fn new(config: RateLimitConfig) -> (limiter: Self)
        ensures
            limiter.records() == no_records(),
            limiter.max_requests() == config.max_requests,
            limiter.window_ms() == millis_of(config.window_duration),
            limiter.enabled() == config.enabled,
    {
        RateLimiter { config, records: records_new(), origin: std::time::Instant::now() }
    }

    /// The present time on the limiter's clock, in milliseconds.
    pub fn clock(&self) -> u128 {
        millis_since(&self.origin)
    }

    /// Counts a request of a client at `now` on the limiter's clock and
    /// says whether it is admitted. A limiter that is off admits every
    /// request and counts none.
    pub fn check_rate_limit_at(&mut self, client_id: &str, now: u128) -> (r: Result<
        (),
        RateLimitError,
    >)
        ensures
            Self::checked(*old(self), *final(self), client_id@, now, r),
    {
        if !self.config.enabled {
            return Ok(());
        }
        let prior = records_get(&self.records, client_id);
        let (record, verdict) = count_request(
            prior,
            self.config.max_requests,
            self.config.window_duration.as_millis(),
            now,
        );
        records_insert(&mut self.records, client_id.to_owned(), record);
        match verdict {
            Ok(_) => Ok(()),
            Err(wait) => Err(
                RateLimitError::LimitExceeded {
                    retry_after: core::time::Duration::from_millis(wait),
                    limit: self.config.max_requests,
                },
            ),
        }
    }

    /// Counts a request of a client now and says whether it is admitted.
    pub fn check_rate_limit(&mut self, client_id: &str) -> (r: Result<(), RateLimitError>)
        ensures
            exists|now: u128| Self::checked(*old(self), *final(self), client_id@, now, r),
    {
        let now = self.clock();
        self.check_rate_limit_at(client_id, now)
    }

    /// The requests of a client in its window, and the time since the
    /// window began, in milliseconds at `now` on the limiter's clock.
    pub fn get_usage_at(&self, client_id: &str, now: u128) -> (usage: Option<(usize, u128)>)
        ensures
            self.usage_at(client_id@, now, usage),
    {
        match records_get(&self.records, client_id) {
            Some(record) => {
                let elapsed = if now >= record.window_start {
                    now - record.window_start
                } else {
                    0
                };
                Some((record.count, elapsed))
            },
            None => None,
        }
    }

    /// The requests of a client in its window, and the time since the
    /// window began, in milliseconds.
    pub fn get_usage(&self, client_id: &str) -> (usage: Option<(usize, u128)>)
        ensures
            exists|now: u128| self.usage_at(client_id@, now, usage),
    {
        let now = self.clock();
        self.get_usage_at(client_id, now)
    }

    /// Forgets the requests of a client.
    pub fn reset(&mut self, client_id: &str)
        ensures
            final(self).max_requests() == old(self).max_requests(),
            final(self).window_ms() == old(self).window_ms(),
            final(self).enabled() == old(self).enabled(),
            final(self).records() == old(self).records().remove(client_id@),
    {
        records_remove(&mut self.records, client_id);
    }

    /// Forgets the records whose window has run out at `now` on the
    /// limiter's clock.
    pub fn cleanup_expired_at(&mut self, now: u128)
        ensures
            Self::swept(*old(self), *final(self), now),
    {
        let entries = records_list(&self.records);
        let window_ms = self.config.window_duration.as_millis();
        let mut i: usize = 0;
        while i < entries.len()
            invariant
                i <= entries@.len(),
                window_ms == old(self).window_ms(),
                self.max_requests() == old(self).max_requests(),
                self.window_ms() == old(self).window_ms(),
                self.enabled() == old(self).enabled(),
                listed_records(old(self).records(), entries@),
                forall|client: Seq<char>| #[trigger]
                    self.records().contains_key(client) ==> old(self).records().contains_key(
                        client,
                    ) && self.records()[client] == old(self).records()[client],
                forall|j: int|
                    0 <= j < entries@.len() ==> (self.records().contains_key(
                        (#[trigger] entries@[j]).0@,
                    ) <==> !(j < i && window_over(entries@[j].1, old(self).window_ms(), now))),
            decreases entries.len() - i,
        {
            let record = entries[i].1;
            let ghost before = self.records();
            if now >= record.window_start && now - record.window_start >= window_ms {
                records_remove(&mut self.records, entries[i].0.as_str());
            }
            proof {
                assert forall|j: int| 0 <= j < entries@.len() implies (self.records().contains_key(
                    (#[trigger] entries@[j]).0@,
                ) <==> !(j < i + 1 && window_over(entries@[j].1, old(self).window_ms(), now))) by {
                    if j != i {
                        if j < i {
                            assert(entries@[j].0@ != entries@[i as int].0@);
                        } else {
                            assert(entries@[i as int].0@ != entries@[j].0@);
                        }
                        assert(before.contains_key(entries@[j].0@) == self.records().contains_key(
                            entries@[j].0@,
                        ));
                    }
                }
            }
            i = i + 1;
        }
        proof {
            assert forall|client: Seq<char>|
                self.records().contains_key(client) <==> old(self).records().contains_key(client)
                    && !window_over(old(self).records()[client], old(self).window_ms(), now) by {
                if old(self).records().contains_key(client) {
                    let j = choose|j: int|
                        0 <= j < entries@.len() && (#[trigger] entries@[j]).0@ == client;
                    assert(old(self).records()[entries@[j].0@] == entries@[j].1);
                }
            }
        }
    }

    /// Forgets the records whose window has run out now.
    pub fn cleanup_expired(&mut self)
        ensures
            exists|now: u128| Self::swept(*old(self), *final(self), now),
    {
        let now = self.clock();
        self.cleanup_expired_at(now)
    }

    /// The figures of the limiter: the clients on record and the requests
    /// counted in their windows, the sum being no more than `usize::MAX`.
    pub fn stats(&self) -> (stats: RateLimitStats)
        ensures
            stats.config.max_requests == self.max_requests(),
            stats.config.enabled == self.enabled(),
            millis_of(stats.config.window_duration) == self.window_ms(),
            exists|entries: Seq<(String, RequestRecord)>|
                listed_records(self.records(), entries) && stats.total_clients == entries.len()
                    && stats.total_requests == capped_requests(entries),
    {
        let entries = records_list(&self.records);
        let mut total: usize = 0;
        let mut i: usize = 0;
        while i < entries.len()
            invariant
                i <= entries@.len(),
                total == capped_requests(entries@.take(i as int)),
            decreases entries.len() - i,
        {
            proof {
                assert(entries@.take(i + 1).drop_last() =~= entries@.take(i as int));
            }
            total = total.saturating_add(entries[i].1.count);
            i = i + 1;
        }
        proof {
            assert(entries@.take(entries@.len() as int) =~= entries@);
        }
        RateLimitStats {
            total_clients: entries.len(),
            total_requests: total,
            config: RateLimitConfig {
                max_requests: self.config.max_requests,
                window_duration: self.config.window_duration.clone(),
                enabled: self.config.enabled,
            },
        }
    }
}

/// Sum of the requests of the records, and never more than `usize::MAX`.
pub open spec fn capped_requests(entries: Seq<(String, RequestRecord)>) -> usize
    decreases entries.len(),
{
    if entries.len() == 0 {
        0
    } else {
        let sum = capped_requests(entries.drop_last()) + entries.last().1.count;
        if sum > usize::MAX {
            usize::MAX
        } else {
            sum as usize
        }
    }
}

} // verus!
