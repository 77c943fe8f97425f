//! Counters and latency histograms of the service.
//!
//! All counters count modulo 2^64. Latencies are taken in whole
//! milliseconds.

use vstd::prelude::*;
use crate::time::millis_since;

verus! {

/// The figures of the service at one moment.
#[derive(Debug, Clone, Copy, PartialEq, Eq, Structural)]
pub struct SystemMetrics {
    pub total_requests: u64,
    pub total_errors: u64,
    pub active_connections: usize,
    /// Cache hits among all lookups, in millionths.
    pub cache_hit_rate: u32,
    /// Mean response time in microseconds.
    pub avg_response_time_us: u64,
    pub uptime_secs: u64,
    pub memory_usage_bytes: usize,
}

/// Number of latency buckets.
pub const LATENCY_BUCKETS: usize = 11;

/// The upper bound of a latency bucket, in milliseconds; past the last
/// bucket, `u64::MAX`.
pub open spec fn latency_bound(i: int) -> u64 {
    if i == 0 {
        1
    } else if i == 1 {
        5
    } else if i == 2 {
        10
    } else if i == 3 {
        25
    } else if i == 4 {
        50
    } else if i == 5 {
        100
    } else if i == 6 {
        250
    } else if i == 7 {
        500
    } else if i == 8 {
        1000
    } else if i == 9 {
        2500
    } else if i == 10 {
        5000
    } else {
        u64::MAX
    }
}

/// `n` and `k` more, modulo 2^64.
pub open spec fn plus(n: u64, k: u64) -> u64 {
    ((n + k) % 0x1_0000_0000_0000_0000) as u64
}

/// The upper bound of a latency bucket, in milliseconds.
pub fn bound_of(i: usize) -> (bound: u64)
    ensures
        bound == latency_bound(i as int),
{
    if i == 0 {
        1
    } else if i == 1 {
        5
    } else if i == 2 {
        10
    } else if i == 3 {
        25
    } else if i == 4 {
        50
    } else if i == 5 {
        100
    } else if i == 6 {
        250
    } else if i == 7 {
        500
    } else if i == 8 {
        1000
    } else if i == 9 {
        2500
    } else if i == 10 {
        5000
    } else {
        u64::MAX
    }
}

/// A histogram of latencies: for each bucket the observations at or below
/// its bound, and the sum and the number of all observations.
#[derive(Debug)]
pub struct Histogram {
    counts: Vec<u64>,
    sum: u64,
    count: u64,
}

impl Histogram {
    /// For each bucket the observations at or below its bound.
    pub closed spec fn counts(self) -> Seq<u64> {
        self.counts@
    }

    /// Sum of all observations.
    pub closed spec fn sum(self) -> u64 {
        self.sum
    }

    /// Number of all observations.
    pub closed spec fn count(self) -> u64 {
        self.count
    }

    /// The histogram has the latency buckets and has taken no observation.
    pub open spec fn is_empty(self) -> bool {
        &&& self.counts() == Seq::new(LATENCY_BUCKETS as nat, |i: int| 0u64)
        &&& self.sum() == 0
        &&& self.count() == 0
    }

    /// An empty histogram with the latency buckets.
    pub fn new() -> (histogram: Self)
        ensures
            histogram.is_empty(),
    {
        let counts: Vec<u64> = vec![0; 11];
        assert(counts@ =~= Seq::new(LATENCY_BUCKETS as nat, |i: int| 0u64));
        Histogram { counts, sum: 0, count: 0 }
    }

    /// Takes an observation: it counts for every bucket whose bound it is
    /// at or below.
    pub fn observe(&mut self, value: u64)
        ensures
            final(self).counts().len() == old(self).counts().len(),
            forall|i: int|
                0 <= i < old(self).counts().len() ==> #[trigger] final(self).counts()[i] == if value
                    <= latency_bound(i) {
                    plus(old(self).counts()[i], 1)
                } else {
                    old(self).counts()[i]
                },
            final(self).sum() == plus(old(self).sum(), value),
            final(self).count() == plus(old(self).count(), 1),
    {
        let mut i: usize = 0;
        while i < self.counts.len()
            invariant
                i <= self.counts@.len(),
                self.counts@.len() == old(self).counts@.len(),
                self.sum == old(self).sum,
                self.count == old(self).count,
                forall|j: int|
                    0 <= j < i ==> #[trigger] self.counts@[j] == if value <= latency_bound(j) {
                        plus(old(self).counts@[j], 1)
                    } else {
                        old(self).counts@[j]
                    },
                forall|j: int|
                    i <= j < self.counts@.len() ==> #[trigger] self.counts@[j] == old(self).counts@[j],
            decreases self.counts.len() - i,
        {
            if value <= bound_of(i) {
                let counted = self.counts[i].wrapping_add(1);
                self.counts.set(i, counted);
            }
            i = i + 1;
        }
        self.sum = self.sum.wrapping_add(value);
        self.count = self.count.wrapping_add(1);
    }

    /// The observations at or below the bound of each bucket, with the
    /// bound.
    pub fn buckets(&self) -> (buckets: Vec<(u64, u64)>)
        ensures
            buckets@.len() == self.counts().len(),
            forall|i: int|
                0 <= i < buckets@.len() ==> #[trigger] buckets@[i] == (
                    latency_bound(i),
                    self.counts()[i],
                ),
    {
        let mut buckets: Vec<(u64, u64)> = Vec::new();
        let mut i: usize = 0;
        while i < self.counts.len()
            invariant
                i <= self.counts@.len(),
                buckets@.len() == i,
                forall|j: int|
                    0 <= j < i ==> #[trigger] buckets@[j] == (latency_bound(j), self.counts@[j]),
            decreases self.counts.len() - i,
        {
            buckets.push((bound_of(i), self.counts[i]));
            i = i + 1;
        }
        buckets
    }

    /// Sum of all observations.
    pub fn total(&self) -> (sum: u64)
        ensures
            sum == self.sum(),
    {
        self.sum
    }

    /// Number of all observations.
    pub fn observations(&self) -> (count: u64)
        ensures
            count == self.count(),
    {
        self.count
    }
}

/// The counters of the service.
#[derive(Debug, Clone, Copy, PartialEq, Eq, Structural)]
pub struct Counters {
    pub total_requests: u64,
    pub total_errors: u64,
    pub active_connections: usize,
    pub total_response_time_ms: u64,
    pub cache_hits: u64,
    pub cache_misses: u64,
    pub gc_runs: u64,
    pub gc_deleted_total: u64,
    pub gc_errors: u64,
}

/// Hits among all lookups, in millionths; zero where there was none.
pub open spec fn rate(hits: u64, misses: u64) -> u32 {
    if hits + misses == 0 {
        0
    } else {
        (hits * 1_000_000 / (hits + misses)) as u32
    }
}

/// Mean response time in microseconds; zero where there was no request.
pub open spec fn mean_us(total_ms: u64, requests: u64) -> u64 {
    if requests == 0 {
        0
    } else if total_ms * 1000 / (requests as int) > u64::MAX {
        u64::MAX
    } else {
        (total_ms * 1000 / (requests as int)) as u64
    }
}

/// Memory in use, in bytes. It is not measured: the answer is zero.
pub fn get_memory_usage() -> (bytes: usize)
    ensures
        bytes == 0,
{
    0
}

/// A latency in whole milliseconds, and never more than `u64::MAX`.
pub fn latency_ms(duration: core::time::Duration) -> (ms: u64)
    ensures
        ms == if crate::time::millis_of(duration) > u64::MAX {
            u64::MAX
        } else {
            crate::time::millis_of(duration) as u64
        },
{
    let ms = duration.as_millis();
    if ms > u64::MAX as u128 {
        u64::MAX
    } else {
        ms as u64
    }
}

/// The collector of the service's figures.
pub struct MetricsCollector {
    start_time: std::time::Instant,
    counters: Counters,
    request_latency: Histogram,
    embedding_latency: Histogram,
    vector_db_latency: Histogram,
}

impl MetricsCollector {
    /// The counters.
    pub closed spec fn counters(self) -> Counters {
        self.counters
    }

    /// The histogram of request latencies.
    pub closed spec fn request_histogram(self) -> Histogram {
        self.request_latency
    }

    /// The histogram of the latencies of embedding operations.
    pub closed spec fn embedding_histogram(self) -> Histogram {
        self.embedding_latency
    }

    /// The histogram of the latencies of the vector index.
    pub closed spec fn vector_db_histogram(self) -> Histogram {
        self.vector_db_latency
    }

    /// A collector whose counters are zero and whose histograms are empty.
    pub fn new() -> (collector: Self)
        ensures
            collector.counters() == (Counters {
                total_requests: 0,
                total_errors: 0,
                active_connections: 0,
                total_response_time_ms: 0,
                cache_hits: 0,
                cache_misses: 0,
                gc_runs: 0,
                gc_deleted_total: 0,
                gc_errors: 0,
            }),
            collector.request_histogram().is_empty(),
            collector.embedding_histogram().is_empty(),
            collector.vector_db_histogram().is_empty(),
    {
        MetricsCollector {
            start_time: std::time::Instant::now(),
            counters: Counters {
                total_requests: 0,
                total_errors: 0,
                active_connections: 0,
                total_response_time_ms: 0,
                cache_hits: 0,
                cache_misses: 0,
                gc_runs: 0,
                gc_deleted_total: 0,
                gc_errors: 0,
            },
            request_latency: Histogram::new(),
            embedding_latency: Histogram::new(),
            vector_db_latency: Histogram::new(),
        }
    }

    /// Counts a request and its response time.
    pub fn record_request(&mut self, response_time: core::time::Duration)
        ensures
            final(self).counters() == (Counters {
                total_requests: plus(old(self).counters().total_requests, 1),
                total_response_time_ms: plus(
                    old(self).counters().total_response_time_ms,
                    spec_latency(response_time),
                ),
                ..old(self).counters()
            }),
            final(self).request_histogram().count() == plus(
                old(self).request_histogram().count(),
                1,
            ),
    {
        let ms = latency_ms(response_time);
        self.counters.total_requests = self.counters.total_requests.wrapping_add(1);
        self.counters.total_response_time_ms = self.counters.total_response_time_ms.wrapping_add(ms);
        self.request_latency.observe(ms);
    }

    /// Takes the latency of an embedding operation.
    pub fn record_embedding_latency(&mut self, duration: core::time::Duration)
        ensures
            final(self).counters() == old(self).counters(),
            final(self).request_histogram() == old(self).request_histogram(),
            final(self).vector_db_histogram() == old(self).vector_db_histogram(),
            final(self).embedding_histogram().count() == plus(
                old(self).embedding_histogram().count(),
                1,
            ),
            final(self).embedding_histogram().sum() == plus(
                old(self).embedding_histogram().sum(),
                spec_latency(duration),
            ),
    {
        self.embedding_latency.observe(latency_ms(duration));
    }

    /// Takes the latency of an operation of the vector index.
    pub fn record_vector_db_latency(&mut self, duration: core::time::Duration)
        ensures
            final(self).counters() == old(self).counters(),
            final(self).request_histogram() == old(self).request_histogram(),
            final(self).embedding_histogram() == old(self).embedding_histogram(),
            final(self).vector_db_histogram().count() == plus(
                old(self).vector_db_histogram().count(),
                1,
            ),
            final(self).vector_db_histogram().sum() == plus(
                old(self).vector_db_histogram().sum(),
                spec_latency(duration),
            ),
    {
        self.vector_db_latency.observe(latency_ms(duration));
    }

    /// Counts a cycle of the garbage collector and what it deleted.
    pub fn record_gc_run(&mut self, deleted_count: usize)
        ensures
            final(self).counters() == (Counters {
                gc_runs: plus(old(self).counters().gc_runs, 1),
                gc_deleted_total: plus(old(self).counters().gc_deleted_total, deleted_count as u64),
                ..old(self).counters()
            }),
            final(self).request_histogram() == old(self).request_histogram(),
    {
        self.counters.gc_runs = self.counters.gc_runs.wrapping_add(1);
        self.counters.gc_deleted_total = self.counters.gc_deleted_total.wrapping_add(
            deleted_count as u64,
        );
    }

    /// Counts a failed cycle of the garbage collector.
    pub fn record_gc_error(&mut self)
        ensures
            final(self).counters() == (Counters {
                gc_errors: plus(old(self).counters().gc_errors, 1),
                ..old(self).counters()
            }),
            final(self).request_histogram() == old(self).request_histogram(),
    {
        self.counters.gc_errors = self.counters.gc_errors.wrapping_add(1);
    }

    /// Counts an error.
    pub fn record_error(&mut self)
        ensures
            final(self).counters() == (Counters {
                total_errors: plus(old(self).counters().total_errors, 1),
                ..old(self).counters()
            }),
            final(self).request_histogram() == old(self).request_histogram(),
    {
        self.counters.total_errors = self.counters.total_errors.wrapping_add(1);
    }

    /// Counts a connection that was opened.
    pub fn increment_connections(&mut self)
        ensures
            final(self).counters() == (Counters {
                active_connections: if old(self).counters().active_connections == usize::MAX {
                    0usize
                } else {
                    (old(self).counters().active_connections + 1) as usize
                },
                ..old(self).counters()
            }),
            final(self).request_histogram() == old(self).request_histogram(),
    {
        self.counters.active_connections = self.counters.active_connections.wrapping_add(1);
    }

    /// Counts a connection that was closed.
    pub fn decrement_connections(&mut self)
        ensures
            final(self).counters() == (Counters {
                active_connections: if old(self).counters().active_connections == 0 {
                    usize::MAX
                } else {
                    (old(self).counters().active_connections - 1) as usize
                },
                ..old(self).counters()
            }),
            final(self).request_histogram() == old(self).request_histogram(),
    {
        self.counters.active_connections = self.counters.active_connections.wrapping_sub(1);
    }

    /// Counts a cache hit.
    pub fn record_cache_hit(&mut self)
        ensures
            final(self).counters() == (Counters {
                cache_hits: plus(old(self).counters().cache_hits, 1),
                ..old(self).counters()
            }),
            final(self).request_histogram() == old(self).request_histogram(),
    {
        self.counters.cache_hits = self.counters.cache_hits.wrapping_add(1);
    }

    /// Counts a cache miss.
    pub fn record_cache_miss(&mut self)
        ensures
            final(self).counters() == (Counters {
                cache_misses: plus(old(self).counters().cache_misses, 1),
                ..old(self).counters()
            }),
            final(self).request_histogram() == old(self).request_histogram(),
    {
        self.counters.cache_misses = self.counters.cache_misses.wrapping_add(1);
    }

    /// The figures for a given uptime.
    pub fn metrics_at(&self, uptime_secs: u64) -> (metrics: SystemMetrics)
        ensures
            metrics == (SystemMetrics {
                total_requests: self.counters().total_requests,
                total_errors: self.counters().total_errors,
                active_connections: self.counters().active_connections,
                cache_hit_rate: rate(self.counters().cache_hits, self.counters().cache_misses),
                avg_response_time_us: mean_us(
                    self.counters().total_response_time_ms,
                    self.counters().total_requests,
                ),
                uptime_secs,
                memory_usage_bytes: 0,
            }),
    {
        let c = &self.counters;
        let lookups = c.cache_hits as u128 + c.cache_misses as u128;
        let cache_hit_rate = if lookups == 0 {
            0
        } else {
            assert((c.cache_hits as int) * 1_000_000 / (lookups as int) <= 1_000_000)
                by (nonlinear_arith)
                requires
                    0 < lookups,
                    0 <= c.cache_hits as int <= lookups as int,
            ;
            (c.cache_hits as u128 * 1_000_000 / lookups) as u32
        };
        let avg_response_time_us = if c.total_requests == 0 {
            0
        } else {
            let mean = c.total_response_time_ms as u128 * 1000 / c.total_requests as u128;
            if mean > u64::MAX as u128 {
                u64::MAX
            } else {
                mean as u64
            }
        };
        SystemMetrics {
            total_requests: c.total_requests,
            total_errors: c.total_errors,
            active_connections: c.active_connections,
            cache_hit_rate,
            avg_response_time_us,
            uptime_secs,
            memory_usage_bytes: get_memory_usage(),
        }
    }

    /// The figures now.
    pub fn get_metrics(&self) -> (metrics: SystemMetrics)
        ensures
            exists|uptime_secs: u64|
                metrics == (SystemMetrics {
                    total_requests: self.counters().total_requests,
                    total_errors: self.counters().total_errors,
                    active_connections: self.counters().active_connections,
                    cache_hit_rate: rate(self.counters().cache_hits, self.counters().cache_misses),
                    avg_response_time_us: mean_us(
                        self.counters().total_response_time_ms,
                        self.counters().total_requests,
                    ),
                    uptime_secs,
                    memory_usage_bytes: 0,
                }),
    {
        let elapsed = millis_since(&self.start_time) / 1000;
        let uptime_secs = if elapsed > u64::MAX as u128 {
            u64::MAX
        } else {
            elapsed as u64
        };
        self.metrics_at(uptime_secs)
    }

    /// The counters as they stand.
    pub fn current_counters(&self) -> (counters: Counters)
        ensures
            counters == self.counters(),
    {
        self.counters
    }

    /// The histogram of request latencies.
    pub fn request_latency(&self) -> (histogram: &Histogram)
        ensures
            *histogram == self.request_histogram(),
    {
        &self.request_latency
    }

    /// The histogram of the latencies of embedding operations.
    pub fn embedding_latency(&self) -> (histogram: &Histogram)
        ensures
            *histogram == self.embedding_histogram(),
    {
        &self.embedding_latency
    }

    /// The histogram of the latencies of the vector index.
    pub fn vector_db_latency(&self) -> (histogram: &Histogram)
        ensures
            *histogram == self.vector_db_histogram(),
    {
        &self.vector_db_latency
    }
}

/// A latency in whole milliseconds, and never more than `u64::MAX`.
pub open spec fn spec_latency(duration: core::time::Duration) -> u64 {
    if crate::time::millis_of(duration) > u64::MAX {
        u64::MAX
    } else {
        crate::time::millis_of(duration) as u64
    }
}

} // verus!
