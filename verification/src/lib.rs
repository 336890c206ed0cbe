//! A shared write-rate limiter for storage-engine background work, together
//! with the option types that surround it.
//!
//! The heart of the crate is [`rate_limiter::RateLimiter`]: a token bucket
//! with two FIFO admission queues (high priority for flushes, low priority
//! for compactions) and a fairness arbiter that keeps low-priority work from
//! starving. Every operation is specified against the mathematical model in
//! [`model`], and the crate-wide guarantees (bounded throughput, FIFO grants,
//! cancellation on close) are proved in [`laws`].

pub mod laws;
pub mod model;
pub mod options;
pub mod rate_limiter;
