//! The mathematical model of the rate limiter.
//!
//! A [`LimiterModel`] is the ghost mirror of [`crate::rate_limiter::RateLimiter`]:
//! unbounded integers for the bucket state and two sequences for the
//! admission queues. Each executable operation promises in its `ensures`
//! that the new state and the returned value equal the corresponding
//! transition function here, so every crate-wide guarantee can be stated and
//! proved purely over this model.

use vstd::prelude::*;

use vstd::arithmetic::div_mod::{
    lemma_div_is_ordered,
    lemma_div_nonincreasing,
    lemma_div_pos_is_pos,
    lemma_fundamental_div_mod,
};
use vstd::arithmetic::mul::lemma_mul_inequality;

use crate::rate_limiter::{Admission, GrantedRequest, LimiterError, PendingRequest, Priority};

verus! {

/// Microseconds per second: the unit conversion used by refill arithmetic.
pub const MICROS_PER_SEC: i64 = 1_000_000;

/// Ghost state of a rate limiter.
#[verifier::ext_equal]
pub struct LimiterModel {
    /// Configured rate in bytes per second; always at least 1.
    pub rate: int,
    /// How often tokens are refilled, in microseconds; fixed at construction.
    pub refill_period_us: int,
    /// A low-priority request wins a contested grant decision with chance
    /// 1 in `fairness`.
    pub fairness: int,
    /// Capacity of the bucket: one refill period's worth of bytes at the
    /// configured rate.
    pub burst: int,
    /// Bytes currently available for consumption.
    pub available: int,
    /// Clock reading of the last refill, in microseconds.
    pub last_refill_us: int,
    /// Cumulative bytes granted since construction, saturating at `u64::MAX`.
    pub total_through: int,
    /// Ticket handed to the next queued request.
    pub next_ticket: int,
    /// Blocked high-priority requests, oldest first.
    pub queue_high: Seq<PendingRequest>,
    /// Blocked low-priority requests, oldest first.
    pub queue_low: Seq<PendingRequest>,
    /// Whether the limiter has been closed.
    pub closed: bool,
}

/// The parameter ranges that construction accepts.
pub open spec fn valid_params(rate: int, refill_period_us: int, fairness: int) -> bool {
    &&& rate >= 1
    &&& refill_period_us >= 1
    &&& fairness >= 1
}

/// One refill period's worth of bytes at `rate`, the bucket capacity. When
/// the product would exceed the machine range the capacity saturates at
/// `i64::MAX` microseconds' worth of work per second.
pub open spec fn burst_for(rate: int, refill_period_us: int) -> int {
    if rate > i64::MAX as int / refill_period_us {
        i64::MAX as int / MICROS_PER_SEC as int
    } else {
        rate * refill_period_us / MICROS_PER_SEC as int
    }
}

/// The queue of the given priority class.
pub open spec fn queue_of(m: LimiterModel, pri: Priority) -> Seq<PendingRequest> {
    match pri {
        Priority::High => m.queue_high,
        Priority::Low => m.queue_low,
    }
}

/// Well-formedness: parameter ranges, the bucket inside its capacity, and
/// queues that only a live limiter may hold, with positive byte counts and
/// tickets below the arrival counter's range.
pub open spec fn wf(m: LimiterModel) -> bool {
    &&& valid_params(m.rate, m.refill_period_us, m.fairness)
    &&& m.rate <= i64::MAX
    &&& m.refill_period_us <= i64::MAX
    &&& m.fairness <= i32::MAX
    &&& m.burst == burst_for(m.rate, m.refill_period_us)
    &&& m.burst <= i64::MAX
    &&& 0 <= m.available <= m.burst
    &&& 0 <= m.last_refill_us <= i64::MAX
    &&& 0 <= m.total_through <= u64::MAX
    &&& 0 <= m.next_ticket <= u64::MAX
    &&& m.closed ==> m.queue_high.len() == 0 && m.queue_low.len() == 0
    &&& forall|i: int| 0 <= i < m.queue_high.len() ==> 1 <= (#[trigger] m.queue_high[i]).bytes
    &&& forall|i: int| 0 <= i < m.queue_low.len() ==> 1 <= (#[trigger] m.queue_low[i]).bytes
}

/// State of a freshly constructed limiter: a full bucket, empty queues, the
/// clock origin as last refill time.
pub open spec fn fresh(rate: int, refill_period_us: int, fairness: int) -> LimiterModel {
    LimiterModel {
        rate,
        refill_period_us,
        fairness,
        burst: burst_for(rate, refill_period_us),
        available: burst_for(rate, refill_period_us),
        last_refill_us: 0,
        total_through: 0,
        next_ticket: 0,
        queue_high: Seq::empty(),
        queue_low: Seq::empty(),
        closed: false,
    }
}

/// Bytes credited by a refill at clock reading `now_us`.
pub open spec fn refill_credit(m: LimiterModel, now_us: int) -> int {
    m.rate * (now_us - m.last_refill_us) / MICROS_PER_SEC as int
}

/// Lazy refill: once at least one refill period has elapsed, credit the
/// elapsed time's worth of bytes, capped at the bucket capacity, and restart
/// the period at `now_us`. Between periods, and when the clock moved
/// backwards, nothing changes.
pub open spec fn refilled(m: LimiterModel, now_us: int) -> LimiterModel {
    if now_us - m.last_refill_us >= m.refill_period_us {
        LimiterModel {
            available: if m.available + refill_credit(m, now_us) >= m.burst {
                m.burst
            } else {
                m.available + refill_credit(m, now_us)
            },
            last_refill_us: now_us,
            ..m
        }
    } else {
        m
    }
}

/// Whether a request of `bytes` at priority `pri` may consume tokens
/// immediately: nobody it must not overtake is queued, and the bucket holds
/// enough. A high-priority request must not overtake queued high-priority
/// requests; a low-priority request must not overtake anyone.
pub open spec fn can_grant_now(m: LimiterModel, bytes: int, pri: Priority) -> bool {
    &&& m.queue_high.len() == 0
    &&& (pri is Low ==> m.queue_low.len() == 0)
    &&& bytes <= m.available
}

/// The arrival counter after one more request was queued.
pub open spec fn ticket_bump(t: int) -> int {
    if t == u64::MAX {
        0
    } else {
        t + 1
    }
}

/// The cumulative throughput counter after `bytes` more were granted;
/// saturates at `u64::MAX`.
pub open spec fn total_plus(total: int, bytes: int) -> int {
    if total + bytes > u64::MAX {
        u64::MAX as int
    } else {
        total + bytes
    }
}

/// What a request call returns. Checked in order: an out-of-range byte count
/// is rejected outright; a closed limiter cancels; then the request is
/// granted, queued, or — when it may not wait — exhausted.
pub open spec fn request_outcome(
    m: LimiterModel,
    bytes: int,
    pri: Priority,
    wait: bool,
    now_us: int,
) -> Result<Admission, LimiterError> {
    if bytes < 1 || bytes > m.burst {
        Err(LimiterError::InvalidArgument)
    } else if m.closed {
        Err(LimiterError::Cancelled)
    } else {
        let m1 = refilled(m, now_us);
        if can_grant_now(m1, bytes, pri) {
            Ok(Admission::Granted)
        } else if wait {
            Ok(Admission::Enqueued(m1.next_ticket as u64))
        } else {
            Err(LimiterError::Exhausted)
        }
    }
}

/// The state after a request call. A rejected or cancelled request changes
/// nothing; otherwise the bucket is refilled, and the request either
/// consumes its bytes or joins the tail of its priority queue.
pub open spec fn after_request(
    m: LimiterModel,
    bytes: int,
    pri: Priority,
    wait: bool,
    now_us: int,
) -> LimiterModel {
    if bytes < 1 || bytes > m.burst || m.closed {
        m
    } else {
        let m1 = refilled(m, now_us);
        if can_grant_now(m1, bytes, pri) {
            LimiterModel {
                available: m1.available - bytes,
                total_through: total_plus(m1.total_through, bytes),
                ..m1
            }
        } else if wait {
            let entry = PendingRequest { ticket: m1.next_ticket as u64, bytes: bytes as i64 };
            match pri {
                Priority::High => LimiterModel {
                    queue_high: m1.queue_high.push(entry),
                    next_ticket: ticket_bump(m1.next_ticket),
                    ..m1
                },
                Priority::Low => LimiterModel {
                    queue_low: m1.queue_low.push(entry),
                    next_ticket: ticket_bump(m1.next_ticket),
                    ..m1
                },
            }
        } else {
            m1
        }
    }
}

/// Which priority class a grant decision serves. When both queues hold
/// requests the decision is contested: the draw gives the head of the low
/// queue its 1-in-`fairness` chance; otherwise strict priority applies.
pub open spec fn grant_pick(m: LimiterModel, draw: int) -> Option<Priority> {
    if m.queue_high.len() > 0 && m.queue_low.len() > 0 {
        if draw % m.fairness == 0 {
            Some(Priority::Low)
        } else {
            Some(Priority::High)
        }
    } else if m.queue_high.len() > 0 {
        Some(Priority::High)
    } else if m.queue_low.len() > 0 {
        Some(Priority::Low)
    } else {
        None
    }
}

/// What one grant decision returns: the head of the chosen queue, provided
/// the bucket holds its bytes; otherwise nothing is granted.
pub open spec fn grant_outcome(m: LimiterModel, draw: int) -> Option<GrantedRequest> {
    match grant_pick(m, draw) {
        None => None,
        Some(pri) => {
            let head = queue_of(m, pri)[0];
            if head.bytes <= m.available {
                Some(GrantedRequest { ticket: head.ticket, priority: pri, bytes: head.bytes })
            } else {
                None
            }
        },
    }
}

/// The state after one grant decision: when a request is granted it leaves
/// the head of its queue and its bytes are consumed.
pub open spec fn after_grant(m: LimiterModel, draw: int) -> LimiterModel {
    match grant_outcome(m, draw) {
        None => m,
        Some(g) => LimiterModel {
            available: m.available - g.bytes,
            total_through: total_plus(m.total_through, g.bytes as int),
            queue_high: if g.priority is High {
                m.queue_high.drop_first()
            } else {
                m.queue_high
            },
            queue_low: if g.priority is Low {
                m.queue_low.drop_first()
            } else {
                m.queue_low
            },
            ..m
        },
    }
}

/// The tickets a close call cancels: every queued request, high before low,
/// each in FIFO order.
pub open spec fn cancelled_tickets(m: LimiterModel) -> Seq<u64> {
    m.queue_high.map_values(|p: PendingRequest| p.ticket) + m.queue_low.map_values(
        |p: PendingRequest| p.ticket,
    )
}

/// The state after a close call: marked closed, both queues emptied. Closing
/// an already closed limiter changes nothing.
pub open spec fn after_close(m: LimiterModel) -> LimiterModel {
    LimiterModel { closed: true, queue_high: Seq::empty(), queue_low: Seq::empty(), ..m }
}

/// What a rate change returns: a non-positive rate is rejected.
pub open spec fn set_rate_outcome(m: LimiterModel, rate: int) -> Result<(), LimiterError> {
    if rate < 1 {
        Err(LimiterError::InvalidArgument)
    } else {
        Ok(())
    }
}

/// The state after a rate change: the burst capacity is recomputed for the
/// new rate and the bucket is clamped down to it; a rejected rate changes
/// nothing.
pub open spec fn after_set_rate(m: LimiterModel, rate: int) -> LimiterModel {
    if rate < 1 {
        m
    } else {
        let burst = burst_for(rate, m.refill_period_us);
        LimiterModel {
            rate,
            burst,
            available: if m.available >= burst {
                burst
            } else {
                m.available
            },
            ..m
        }
    }
}

/// When `x` is at most `cap / y` (integer division), the product `x * y`
/// stays within `cap`. This is the overflow guard behind the burst and
/// refill arithmetic.
pub proof fn lemma_mul_within_cap(x: int, y: int, cap: int)
    requires
        0 <= x,
        1 <= y,
        0 <= cap,
        x <= cap / y,
    ensures
        x * y <= cap,
{
    lemma_fundamental_div_mod(cap, y);
    lemma_mul_inequality(x, cap / y, y);
}

/// When `x` exceeds `cap / y` (integer division), the product `x * y`
/// exceeds `cap`: the converse direction of the overflow guard.
pub proof fn lemma_mul_exceeds_cap(x: int, y: int, cap: int)
    requires
        1 <= y,
        0 <= cap,
        x > cap / y,
    ensures
        x * y > cap,
{
    lemma_fundamental_div_mod(cap, y);
    lemma_mul_inequality(cap / y + 1, x, y);
    assert((cap / y + 1) * y == (cap / y) * y + y) by (nonlinear_arith);
}

/// The burst capacity lies in the machine range, whatever valid rate and
/// period produced it.
pub proof fn lemma_burst_for_bounds(rate: int, refill_period_us: int)
    requires
        1 <= rate <= i64::MAX,
        1 <= refill_period_us <= i64::MAX,
    ensures
        0 <= burst_for(rate, refill_period_us) <= i64::MAX,
{
    if rate > i64::MAX as int / refill_period_us {
        lemma_div_pos_is_pos(i64::MAX as int, MICROS_PER_SEC as int);
        lemma_div_nonincreasing(i64::MAX as int, MICROS_PER_SEC as int);
    } else {
        lemma_mul_within_cap(rate, refill_period_us, i64::MAX as int);
        lemma_mul_inequality(1, rate, refill_period_us);
        lemma_div_pos_is_pos(rate * refill_period_us, MICROS_PER_SEC as int);
        lemma_div_nonincreasing(rate * refill_period_us, MICROS_PER_SEC as int);
    }
}

/// Once at least one refill period has elapsed, the refill credit covers a
/// whole burst: this is why a refill that cannot be computed in machine
/// arithmetic may simply fill the bucket to its capacity.
pub proof fn lemma_credit_at_least_burst(rate: int, refill_period_us: int, elapsed: int)
    requires
        1 <= rate <= i64::MAX,
        1 <= refill_period_us,
        elapsed >= refill_period_us,
    ensures
        rate * elapsed / MICROS_PER_SEC as int >= burst_for(rate, refill_period_us),
{
    lemma_mul_inequality(refill_period_us, elapsed, rate);
    assert(rate * refill_period_us <= rate * elapsed) by {
        vstd::arithmetic::mul::lemma_mul_is_commutative(rate, refill_period_us);
        vstd::arithmetic::mul::lemma_mul_is_commutative(rate, elapsed);
    }
    if rate > i64::MAX as int / refill_period_us {
        lemma_mul_exceeds_cap(rate, refill_period_us, i64::MAX as int);
        lemma_div_is_ordered(i64::MAX as int, rate * elapsed, MICROS_PER_SEC as int);
    } else {
        lemma_div_is_ordered(rate * refill_period_us, rate * elapsed, MICROS_PER_SEC as int);
    }
}

/// The refill credit is never negative.
pub proof fn lemma_credit_nonneg(m: LimiterModel, now_us: int)
    requires
        m.rate >= 1,
        now_us >= m.last_refill_us,
    ensures
        refill_credit(m, now_us) >= 0,
{
    lemma_mul_inequality(0, now_us - m.last_refill_us, m.rate);
    assert(m.rate * (now_us - m.last_refill_us) >= 0) by {
        vstd::arithmetic::mul::lemma_mul_is_commutative(m.rate, now_us - m.last_refill_us);
    }
    lemma_div_pos_is_pos(m.rate * (now_us - m.last_refill_us), MICROS_PER_SEC as int);
}

/// A fresh limiter is well formed.
pub proof fn lemma_fresh_wf(rate: int, refill_period_us: int, fairness: int)
    requires
        valid_params(rate, refill_period_us, fairness),
        rate <= i64::MAX,
        refill_period_us <= i64::MAX,
        fairness <= i32::MAX,
    ensures
        wf(fresh(rate, refill_period_us, fairness)),
{
    lemma_burst_for_bounds(rate, refill_period_us);
}

/// A refill keeps the limiter well formed.
pub proof fn lemma_refilled_wf(m: LimiterModel, now_us: int)
    requires
        wf(m),
        now_us <= i64::MAX,
    ensures
        wf(refilled(m, now_us)),
        refilled(m, now_us).last_refill_us >= m.last_refill_us,
{
    if now_us - m.last_refill_us >= m.refill_period_us {
        lemma_credit_nonneg(m, now_us);
    }
}

/// A request call keeps the limiter well formed, never decreases the
/// throughput counter, and never turns the refill clock back.
pub proof fn lemma_after_request_wf(
    m: LimiterModel,
    bytes: int,
    pri: Priority,
    wait: bool,
    now_us: int,
)
    requires
        wf(m),
        now_us <= i64::MAX,
    ensures
        wf(after_request(m, bytes, pri, wait, now_us)),
        after_request(m, bytes, pri, wait, now_us).total_through >= m.total_through,
        after_request(m, bytes, pri, wait, now_us).last_refill_us >= m.last_refill_us,
        after_request(m, bytes, pri, wait, now_us).rate == m.rate,
        after_request(m, bytes, pri, wait, now_us).burst == m.burst,
        after_request(m, bytes, pri, wait, now_us).refill_period_us == m.refill_period_us,
        after_request(m, bytes, pri, wait, now_us).fairness == m.fairness,
{
    if 1 <= bytes <= m.burst && !m.closed {
        lemma_refilled_wf(m, now_us);
        let m1 = refilled(m, now_us);
        if can_grant_now(m1, bytes, pri) {
        } else if wait {
            let entry = PendingRequest { ticket: m1.next_ticket as u64, bytes: bytes as i64 };
            let mq = after_request(m, bytes, pri, wait, now_us);
            if pri is High {
                assert(mq.queue_high == m1.queue_high.push(entry));
                assert(mq.queue_low == m1.queue_low);
            } else {
                assert(mq.queue_high == m1.queue_high);
                assert(mq.queue_low == m1.queue_low.push(entry));
            }
            assert forall|i: int| 0 <= i < mq.queue_high.len() implies 1 <= (
            #[trigger] mq.queue_high[i]).bytes by {
                if pri is High && i == m1.queue_high.len() {
                    assert(mq.queue_high[i] == entry);
                } else {
                    assert(mq.queue_high[i] == m1.queue_high[i]);
                }
            }
            assert forall|i: int| 0 <= i < mq.queue_low.len() implies 1 <= (
            #[trigger] mq.queue_low[i]).bytes by {
                if pri is Low && i == m1.queue_low.len() {
                    assert(mq.queue_low[i] == entry);
                } else {
                    assert(mq.queue_low[i] == m1.queue_low[i]);
                }
            }
        }
    }
}

/// A grant decision keeps the limiter well formed, never decreases the
/// throughput counter, and leaves configuration and clock alone.
pub proof fn lemma_after_grant_wf(m: LimiterModel, draw: int)
    requires
        wf(m),
    ensures
        wf(after_grant(m, draw)),
        after_grant(m, draw).total_through >= m.total_through,
        after_grant(m, draw).last_refill_us == m.last_refill_us,
        after_grant(m, draw).rate == m.rate,
        after_grant(m, draw).burst == m.burst,
        after_grant(m, draw).refill_period_us == m.refill_period_us,
        after_grant(m, draw).fairness == m.fairness,
{
    match grant_outcome(m, draw) {
        None => {},
        Some(g) => {
            let mq = after_grant(m, draw);
            assert(1 <= g.bytes);
            assert forall|i: int| 0 <= i < mq.queue_high.len() implies 1 <= (
            #[trigger] mq.queue_high[i]).bytes by {
                if g.priority is High {
                    assert(mq.queue_high[i] == m.queue_high[i + 1]);
                } else {
                    assert(mq.queue_high[i] == m.queue_high[i]);
                }
            }
            assert forall|i: int| 0 <= i < mq.queue_low.len() implies 1 <= (
            #[trigger] mq.queue_low[i]).bytes by {
                if g.priority is Low {
                    assert(mq.queue_low[i] == m.queue_low[i + 1]);
                } else {
                    assert(mq.queue_low[i] == m.queue_low[i]);
                }
            }
        },
    }
}

/// A close keeps the limiter well formed and changes neither the bucket nor
/// the counters.
pub proof fn lemma_after_close_wf(m: LimiterModel)
    requires
        wf(m),
    ensures
        wf(after_close(m)),
        after_close(m).total_through == m.total_through,
        after_close(m).last_refill_us == m.last_refill_us,
        after_close(m).rate == m.rate,
        after_close(m).burst == m.burst,
        after_close(m).available == m.available,
{
}

/// A rate change keeps the limiter well formed; the clock, the counters and
/// the queues stay as they were.
pub proof fn lemma_after_set_rate_wf(m: LimiterModel, rate: int)
    requires
        wf(m),
        rate <= i64::MAX,
    ensures
        wf(after_set_rate(m, rate)),
        after_set_rate(m, rate).total_through == m.total_through,
        after_set_rate(m, rate).last_refill_us == m.last_refill_us,
        after_set_rate(m, rate).queue_high == m.queue_high,
        after_set_rate(m, rate).queue_low == m.queue_low,
{
    if rate >= 1 {
        lemma_burst_for_bounds(rate, m.refill_period_us);
    }
}

} // verus!
