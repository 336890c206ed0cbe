//! The shared write-rate limiter: a token bucket with two FIFO admission
//! queues and a fairness arbiter. It throttles the aggregate byte throughput
//! of background flushes (high priority) and compactions (low priority),
//! possibly across several engine instances sharing one limiter.
//!
//! Time and randomness are injected: callers pass the current clock reading
//! in microseconds to [`RateLimiter::refill`] and [`RateLimiter::request`],
//! and a draw from their randomness source to [`RateLimiter::grant_one`].
//! Every method is specified against the transitions in [`crate::model`].

use vstd::prelude::*;

use crate::model::{
    after_close,
    after_grant,
    after_request,
    after_set_rate,
    burst_for,
    cancelled_tickets,
    fresh,
    grant_outcome,
    lemma_burst_for_bounds,
    lemma_credit_at_least_burst,
    lemma_fresh_wf,
    lemma_mul_within_cap,
    lemma_refilled_wf,
    refilled,
    request_outcome,
    set_rate_outcome,
    valid_params,
    wf,
    LimiterModel,
    MICROS_PER_SEC,
};

verus! {

/// Priority class of a request: flushes are latency sensitive, compactions
/// run in the background.
#[derive(Clone, Copy, Debug, PartialEq, Eq, Structural)]
pub enum Priority {
    High,
    Low,
}

/// The kind of background operation on behalf of which bytes are requested.
#[derive(Clone, Copy, Debug, PartialEq, Eq, Structural)]
pub enum OperationKind {
    Flush,
    Compaction,
}

/// The priority class under which each kind of background operation competes
/// for the shared byte budget.
pub fn priority_for_operation(op: OperationKind) -> (p: Priority)
    ensures
        p == (match op {
            OperationKind::Flush => Priority::High,
            OperationKind::Compaction => Priority::Low,
        }),
{
    match op {
        OperationKind::Flush => Priority::High,
        OperationKind::Compaction => Priority::Low,
    }
}

/// Why a call failed.
#[derive(Clone, Copy, Debug, PartialEq, Eq, Structural)]
pub enum LimiterError {
    /// A parameter was out of range, or a single request asked for more than
    /// one burst of bytes.
    InvalidArgument,
    /// A non-waiting request could not be satisfied immediately.
    Exhausted,
    /// The limiter was closed.
    Cancelled,
}

/// How a successful request was admitted.
#[derive(Clone, Copy, Debug, PartialEq, Eq, Structural)]
pub enum Admission {
    /// The bytes were consumed immediately.
    Granted,
    /// The request joined its priority queue under this ticket and waits for
    /// a later grant.
    Enqueued(u64),
}

/// A queued request: its ticket and the bytes it still waits for.
#[derive(Clone, Copy, Debug, PartialEq, Eq, Structural)]
pub struct PendingRequest {
    pub ticket: u64,
    pub bytes: i64,
}

/// A grant handed out by the arbiter: which queued request received its
/// bytes.
#[derive(Clone, Copy, Debug, PartialEq, Eq, Structural)]
pub struct GrantedRequest {
    pub ticket: u64,
    pub priority: Priority,
    pub bytes: i64,
}

/// The shared write-rate limiter. All bucket, queue and rate state sits in
/// this one structure; a process shares it across engine instances behind
/// its own lock (the structure itself holds no lock, so the verified logic
/// stays sequential).
pub struct RateLimiter {
    rate_bytes_per_sec: i64,
    refill_period_us: i64,
    fairness: i32,
    burst_bytes: i64,
    available_bytes: i64,
    last_refill_us: i64,
    total_bytes_through: u64,
    next_ticket: u64,
    queue_high: Vec<PendingRequest>,
    queue_low: Vec<PendingRequest>,
    closed: bool,
}

impl View for RateLimiter {
    type V = LimiterModel;

    closed spec fn view(&self) -> LimiterModel {
        LimiterModel {
            rate: self.rate_bytes_per_sec as int,
            refill_period_us: self.refill_period_us as int,
            fairness: self.fairness as int,
            burst: self.burst_bytes as int,
            available: self.available_bytes as int,
            last_refill_us: self.last_refill_us as int,
            total_through: self.total_bytes_through as int,
            next_ticket: self.next_ticket as int,
            queue_high: self.queue_high@,
            queue_low: self.queue_low@,
            closed: self.closed,
        }
    }
}

/// One refill period's worth of bytes at `rate`, computed in machine
/// arithmetic with the saturation that `burst_for` specifies.
fn compute_burst(rate: i64, refill_period_us: i64) -> (b: i64)
    requires
        1 <= rate,
        1 <= refill_period_us,
    ensures
        b == burst_for(rate as int, refill_period_us as int),
{
    proof {
        lemma_burst_for_bounds(rate as int, refill_period_us as int);
    }
    if rate > i64::MAX / refill_period_us {
        i64::MAX / MICROS_PER_SEC
    } else {
        proof {
            lemma_mul_within_cap(rate as int, refill_period_us as int, i64::MAX as int);
        }
        rate * refill_period_us / MICROS_PER_SEC
    }
}

impl RateLimiter {
    /// Creates a rate limiter. `rate_bytes_per_sec` caps the total write
    /// rate of compaction and flush; `refill_period_us` controls how often
    /// tokens are refilled (larger values make writes burstier, smaller ones
    /// cost more CPU); `fairness` gives a queued low-priority request a
    /// 1-in-`fairness` chance against waiting high-priority requests, so
    /// continuous flushes cannot starve compactions.
    ///
    /// All three parameters are validated: the rate and the period must be
    /// positive and the fairness at least 1.
    pub fn new(rate_bytes_per_sec: i64, refill_period_us: i64, fairness: i32) -> (r: Result<
        RateLimiter,
        LimiterError,
    >)
        ensures
            valid_params(rate_bytes_per_sec as int, refill_period_us as int, fairness as int)
                ==> (r matches Ok(l) && l@ == fresh(
                rate_bytes_per_sec as int,
                refill_period_us as int,
                fairness as int,
            ) && wf(l@)),
            !valid_params(rate_bytes_per_sec as int, refill_period_us as int, fairness as int)
                ==> (r matches Err(e) && e == LimiterError::InvalidArgument),
    {
        if rate_bytes_per_sec < 1 || refill_period_us < 1 || fairness < 1 {
            return Err(LimiterError::InvalidArgument);
        }
        proof {
            lemma_fresh_wf(rate_bytes_per_sec as int, refill_period_us as int, fairness as int);
        }
        let burst = compute_burst(rate_bytes_per_sec, refill_period_us);
        Ok(
            RateLimiter {
                rate_bytes_per_sec,
                refill_period_us,
                fairness,
                burst_bytes: burst,
                available_bytes: burst,
                last_refill_us: 0,
                total_bytes_through: 0,
                next_ticket: 0,
                queue_high: Vec::new(),
                queue_low: Vec::new(),
                closed: false,
            },
        )
    }

    /// The maximum number of bytes a single request may ask for: the current
    /// burst capacity.
    pub fn get_single_burst_bytes(&self) -> (b: i64)
        ensures
            b == self@.burst,
    {
        self.burst_bytes
    }

    /// Cumulative bytes granted since construction; never decreases.
    pub fn get_total_bytes_through(&self) -> (t: u64)
        ensures
            t == self@.total_through,
    {
        self.total_bytes_through
    }

    /// Lazily refills the bucket from the injected clock reading, in
    /// microseconds. A no-op until a whole refill period has elapsed, so
    /// calling it often never double-credits; a clock that moved backwards
    /// credits nothing.
    pub fn refill(&mut self, now_us: i64)
        requires
            wf(old(self)@),
        ensures
            final(self)@ == refilled(old(self)@, now_us as int),
            wf(final(self)@),
    {
        proof {
            lemma_refilled_wf(old(self)@, now_us as int);
        }
        if now_us > self.last_refill_us {
            let elapsed = now_us - self.last_refill_us;
            if elapsed >= self.refill_period_us {
                if self.rate_bytes_per_sec > i64::MAX / elapsed {
                    proof {
                        lemma_credit_at_least_burst(
                            self.rate_bytes_per_sec as int,
                            self.refill_period_us as int,
                            elapsed as int,
                        );
                    }
                    self.available_bytes = self.burst_bytes;
                } else {
                    proof {
                        lemma_mul_within_cap(
                            self.rate_bytes_per_sec as int,
                            elapsed as int,
                            i64::MAX as int,
                        );
                    }
                    let credit = self.rate_bytes_per_sec * elapsed / MICROS_PER_SEC;
                    if credit >= self.burst_bytes - self.available_bytes {
                        self.available_bytes = self.burst_bytes;
                    } else {
                        self.available_bytes = self.available_bytes + credit;
                    }
                }
                self.last_refill_us = now_us;
            }
        }
    }

    /// Requests `bytes` at priority `pri`, with `now_us` the injected clock
    /// reading. The bucket is refilled first; then the request is granted
    /// immediately when the bucket holds enough and nobody it must not
    /// overtake is queued. Otherwise a waiting request joins its priority
    /// queue under the returned ticket, to be served by later
    /// [`Self::grant_one`] decisions; a non-waiting request fails with
    /// `Exhausted` instead. A request for more than one burst of bytes is
    /// rejected outright — callers must split larger writes — and a closed
    /// limiter cancels every request.
    pub fn request(&mut self, bytes: i64, pri: Priority, wait: bool, now_us: i64) -> (r: Result<
        Admission,
        LimiterError,
    >)
        requires
            wf(old(self)@),
        ensures
            final(self)@ == after_request(old(self)@, bytes as int, pri, wait, now_us as int),
            r == request_outcome(old(self)@, bytes as int, pri, wait, now_us as int),
            wf(final(self)@),
    {
        if bytes < 1 || bytes > self.burst_bytes {
            return Err(LimiterError::InvalidArgument);
        }
        if self.closed {
            return Err(LimiterError::Cancelled);
        }
        self.refill(now_us);
        let queue_clear = match pri {
            Priority::High => self.queue_high.len() == 0,
            Priority::Low => self.queue_high.len() == 0 && self.queue_low.len() == 0,
        };
        if queue_clear && bytes <= self.available_bytes {
            self.available_bytes = self.available_bytes - bytes;
            self.total_bytes_through = self.total_bytes_through.saturating_add(bytes as u64);
            Ok(Admission::Granted)
        } else if wait {
            let ticket = self.next_ticket;
            let entry = PendingRequest { ticket, bytes };
            match pri {
                Priority::High => self.queue_high.push(entry),
                Priority::Low => self.queue_low.push(entry),
            }
            self.next_ticket = if ticket == u64::MAX {
                0
            } else {
                ticket + 1
            };
            Ok(Admission::Enqueued(ticket))
        } else {
            Err(LimiterError::Exhausted)
        }
    }

    /// Makes one grant decision with the injected randomness `draw`. When
    /// both queues hold requests the decision is contested and the draw
    /// gives the head of the low queue its 1-in-`fairness` chance; otherwise
    /// the non-empty queue is served, high priority first. The head of the
    /// chosen queue is granted if its bytes fit the bucket; the caller wakes
    /// the returned ticket's owner. Callers drive decisions until `None`
    /// comes back — the bytes then available do not cover the next head (or
    /// no request waits), and the next refill must pass first.
    pub fn grant_one(&mut self, draw: u64) -> (g: Option<GrantedRequest>)
        requires
            wf(old(self)@),
        ensures
            final(self)@ == after_grant(old(self)@, draw as int),
            g == grant_outcome(old(self)@, draw as int),
            wf(final(self)@),
    {
        let serve_low: bool;
        if self.queue_high.len() > 0 && self.queue_low.len() > 0 {
            serve_low = draw % (self.fairness as u64) == 0;
        } else if self.queue_high.len() > 0 {
            serve_low = false;
        } else if self.queue_low.len() > 0 {
            serve_low = true;
        } else {
            return None;
        }
        if serve_low {
            let head = self.queue_low[0];
            if head.bytes <= self.available_bytes {
                self.queue_low.remove(0);
                proof {
                    assert(self.queue_low@ =~= old(self).queue_low@.drop_first());
                }
                self.available_bytes = self.available_bytes - head.bytes;
                self.total_bytes_through = self.total_bytes_through.saturating_add(
                    head.bytes as u64,
                );
                Some(GrantedRequest { ticket: head.ticket, priority: Priority::Low, bytes: head.bytes })
            } else {
                None
            }
        } else {
            let head = self.queue_high[0];
            if head.bytes <= self.available_bytes {
                self.queue_high.remove(0);
                proof {
                    assert(self.queue_high@ =~= old(self).queue_high@.drop_first());
                }
                self.available_bytes = self.available_bytes - head.bytes;
                self.total_bytes_through = self.total_bytes_through.saturating_add(
                    head.bytes as u64,
                );
                Some(
                    GrantedRequest { ticket: head.ticket, priority: Priority::High, bytes: head.bytes },
                )
            } else {
                None
            }
        }
    }

    /// Changes the configured rate at run time. A non-positive rate is
    /// rejected; otherwise the burst capacity is recomputed for the new rate
    /// and the bucket is clamped down to it, so the capacity invariant holds
    /// immediately. The new rate governs every refill from the next one on.
    pub fn set_bytes_per_second(&mut self, rate_bytes_per_sec: i64) -> (r: Result<
        (),
        LimiterError,
    >)
        requires
            wf(old(self)@),
        ensures
            final(self)@ == after_set_rate(old(self)@, rate_bytes_per_sec as int),
            r == set_rate_outcome(old(self)@, rate_bytes_per_sec as int),
            wf(final(self)@),
    {
        if rate_bytes_per_sec < 1 {
            return Err(LimiterError::InvalidArgument);
        }
        proof {
            lemma_burst_for_bounds(rate_bytes_per_sec as int, self.refill_period_us as int);
        }
        let burst = compute_burst(rate_bytes_per_sec, self.refill_period_us);
        self.rate_bytes_per_sec = rate_bytes_per_sec;
        self.burst_bytes = burst;
        if self.available_bytes >= burst {
            self.available_bytes = burst;
        }
        proof {
            assert(self@.queue_high == old(self)@.queue_high);
            assert(self@.queue_low == old(self)@.queue_low);
            assert(wf(self@));
        }
        Ok(())
    }

    /// Closes the limiter: every queued request is cancelled — its ticket is
    /// returned so the caller can wake and fail it — and every later request
    /// call fails immediately. Closing an already closed limiter returns
    /// nothing and changes nothing.
    pub fn close(&mut self) -> (cancelled: Vec<u64>)
        requires
            wf(old(self)@),
        ensures
            final(self)@ == after_close(old(self)@),
            cancelled@ == cancelled_tickets(old(self)@),
            wf(final(self)@),
    {
        let ghost m = self@;
        let mut cancelled: Vec<u64> = Vec::new();
        let mut i: usize = 0;
        while i < self.queue_high.len()
            invariant
                self == old(self),
                i <= self.queue_high.len(),
                cancelled@ == self.queue_high@.map_values(|p: PendingRequest| p.ticket).take(
                    i as int,
                ),
            decreases self.queue_high.len() - i,
        {
            cancelled.push(self.queue_high[i].ticket);
            proof {
                assert(cancelled@ =~= self.queue_high@.map_values(
                    |p: PendingRequest| p.ticket,
                ).take(i + 1));
            }
            i = i + 1;
        }
        let mut j: usize = 0;
        while j < self.queue_low.len()
            invariant
                self == old(self),
                j <= self.queue_low.len(),
                cancelled@ == self.queue_high@.map_values(|p: PendingRequest| p.ticket)
                    + self.queue_low@.map_values(|p: PendingRequest| p.ticket).take(j as int),
            decreases self.queue_low.len() - j,
        {
            cancelled.push(self.queue_low[j].ticket);
            proof {
                assert(cancelled@ =~= self.queue_high@.map_values(|p: PendingRequest| p.ticket)
                    + self.queue_low@.map_values(|p: PendingRequest| p.ticket).take(j + 1));
            }
            j = j + 1;
        }
        self.queue_high.clear();
        self.queue_low.clear();
        self.closed = true;
        proof {
            assert(cancelled@ =~= cancelled_tickets(m));
        }
        cancelled
    }
}

} // verus!
