//! The limit on the size of a request body.

use vstd::prelude::*;

verus! {

/// Configuration of the body limit.
#[derive(Debug, Clone, Copy, PartialEq, Eq, Structural)]
pub struct BodyLimitConfig {
    /// Largest body in bytes; zero for no limit.
    pub max_body_size: usize,
}

impl Default for BodyLimitConfig {
    fn default() -> (config: Self)
        ensures
            config.max_body_size == 10 * 1024 * 1024,
    {
        BodyLimitConfig { max_body_size: 10 * 1024 * 1024 }
    }
}

/// The body limit of the HTTP interface.
#[derive(Debug, Clone, Copy)]
pub struct BodyLimiter {
    config: BodyLimitConfig,
}

/// Whether a request that declares a body of `declared` bytes passes a
/// limit of `limit` bytes: there is no limit, the request declares no
/// length, or the length is within the limit.
pub open spec fn passes(limit: usize, declared: Option<usize>) -> bool {
    limit == 0 || match declared {
        Some(length) => length <= limit,
        None => true,
    }
}

impl BodyLimiter {
    /// The limit in bytes; zero for no limit.
    pub closed spec fn limit(self) -> usize {
        self.config.max_body_size
    }

    pub fn new(config: BodyLimitConfig) -> (limiter: Self)
        ensures
            limiter.limit() == config.max_body_size,
    {
        BodyLimiter { config }
    }

    /// The largest body in bytes; zero for no limit.
    pub fn max_body_size(&self) -> (size: usize)
        ensures
            size == self.limit(),
    {
        self.config.max_body_size
    }

    /// Whether a request passes that declares a body of `declared` bytes,
    /// or no length at all.
    pub fn allows(&self, declared: Option<usize>) -> (allowed: bool)
        ensures
            allowed == passes(self.limit(), declared),
    {
        if self.config.max_body_size == 0 {
            return true;
        }
        match declared {
            Some(length) => length <= self.config.max_body_size,
            None => true,
        }
    }
}

} // verus!
