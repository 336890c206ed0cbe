//! The crate-wide guarantees of the rate limiter, proved over the model.
//!
//! Each law quantifies over whole histories where it has to: an operation
//! trace is a sequence of [`LimiterOp`] values, folded over the transition
//! functions of [`crate::model`] by [`run`]. Because every method of
//! [`crate::rate_limiter::RateLimiter`] promises that its result and new
//! state equal those transition functions, whatever is proved here about
//! `run` holds of every sequence of calls on the executable limiter.

use vstd::prelude::*;

use vstd::arithmetic::div_mod::{lemma_fundamental_div_mod, lemma_mod_division_less_than_divisor};
use vstd::arithmetic::mul::lemma_mul_is_distributive_sub;

use crate::model::{
    after_close,
    after_grant,
    after_request,
    after_set_rate,
    burst_for,
    can_grant_now,
    cancelled_tickets,
    fresh,
    grant_outcome,
    lemma_after_close_wf,
    lemma_after_grant_wf,
    lemma_after_request_wf,
    lemma_after_set_rate_wf,
    lemma_fresh_wf,
    lemma_refilled_wf,
    refill_credit,
    refilled,
    request_outcome,
    valid_params,
    wf,
    LimiterModel,
    MICROS_PER_SEC,
};
use crate::rate_limiter::{Admission, GrantedRequest, LimiterError, Priority};

verus! {

/// One operation of a limiter history, with its injected clock reading or
/// randomness where the operation takes one.
pub enum LimiterOp {
    Request { bytes: int, pri: Priority, wait: bool, now_us: int },
    Refill { now_us: int },
    Grant { draw: int },
    SetRate { rate: int },
    Close,
}

/// The state after one operation.
pub open spec fn step(m: LimiterModel, op: LimiterOp) -> LimiterModel {
    match op {
        LimiterOp::Request { bytes, pri, wait, now_us } => after_request(
            m,
            bytes,
            pri,
            wait,
            now_us,
        ),
        LimiterOp::Refill { now_us } => refilled(m, now_us),
        LimiterOp::Grant { draw } => after_grant(m, draw),
        LimiterOp::SetRate { rate } => after_set_rate(m, rate),
        LimiterOp::Close => after_close(m),
    }
}

/// The state after a whole trace of operations, first operation first.
pub open spec fn run(m: LimiterModel, ops: Seq<LimiterOp>) -> LimiterModel
    decreases ops.len(),
{
    if ops.len() == 0 {
        m
    } else {
        run(step(m, ops[0]), ops.drop_first())
    }
}

/// Clock readings and rates handed to a trace stay in the machine range, as
/// they do on the executable limiter, whose parameters are machine integers.
pub open spec fn machine_ops(ops: Seq<LimiterOp>) -> bool {
    forall|i: int|
        0 <= i < ops.len() ==> match #[trigger] ops[i] {
            LimiterOp::Request { now_us, .. } => now_us <= i64::MAX,
            LimiterOp::Refill { now_us } => now_us <= i64::MAX,
            LimiterOp::Grant { .. } => true,
            LimiterOp::SetRate { rate } => rate <= i64::MAX,
            LimiterOp::Close => true,
        }
}

/// Every operation keeps the limiter well formed, never decreases the
/// throughput counter, and never turns the refill clock back.
pub proof fn lemma_step_wf(m: LimiterModel, op: LimiterOp)
    requires
        wf(m),
        machine_ops(seq![op]),
    ensures
        wf(step(m, op)),
        step(m, op).total_through >= m.total_through,
        step(m, op).last_refill_us >= m.last_refill_us,
{
    assert(seq![op][0] == op);
    match op {
        LimiterOp::Request { bytes, pri, wait, now_us } => {
            lemma_after_request_wf(m, bytes, pri, wait, now_us);
        },
        LimiterOp::Refill { now_us } => {
            lemma_refilled_wf(m, now_us);
        },
        LimiterOp::Grant { draw } => {
            lemma_after_grant_wf(m, draw);
        },
        LimiterOp::SetRate { rate } => {
            lemma_after_set_rate_wf(m, rate);
        },
        LimiterOp::Close => {
            lemma_after_close_wf(m);
        },
    }
}

/// Well-formedness is an invariant of whole histories, and both the
/// throughput counter and the refill clock are monotone along them. The
/// monotone counter is what makes `get_total_bytes_through` a cumulative
/// observability figure.
pub proof fn lemma_run_wf(m: LimiterModel, ops: Seq<LimiterOp>)
    requires
        wf(m),
        machine_ops(ops),
    ensures
        wf(run(m, ops)),
        run(m, ops).total_through >= m.total_through,
        run(m, ops).last_refill_us >= m.last_refill_us,
    decreases ops.len(),
{
    if ops.len() > 0 {
        assert(machine_ops(seq![ops[0]])) by {
            assert(seq![ops[0]][0] == ops[0]);
        }
        lemma_step_wf(m, ops[0]);
        assert(machine_ops(ops.drop_first())) by {
            assert(forall|i: int|
                0 <= i < ops.drop_first().len() ==> #[trigger] ops.drop_first()[i] == ops[i + 1]);
        }
        lemma_run_wf(step(m, ops[0]), ops.drop_first());
    }
}

/// On a freshly constructed limiter — any valid rate, period and fairness —
/// the very first request is granted immediately, without waiting, whenever
/// it asks for no more than one burst of bytes. It holds for either
/// priority, for waiting and non-waiting callers, and whatever the clock
/// reads.
pub proof fn lemma_first_request_granted(
    rate: int,
    refill_period_us: int,
    fairness: int,
    bytes: int,
    pri: Priority,
    wait: bool,
    now_us: int,
)
    requires
        valid_params(rate, refill_period_us, fairness),
        rate <= i64::MAX,
        refill_period_us <= i64::MAX,
        fairness <= i32::MAX,
        1 <= bytes <= burst_for(rate, refill_period_us),
        now_us <= i64::MAX,
    ensures
        request_outcome(fresh(rate, refill_period_us, fairness), bytes, pri, wait, now_us) == Ok::<
            Admission,
            LimiterError,
        >(Admission::Granted),
{
    let m = fresh(rate, refill_period_us, fairness);
    lemma_fresh_wf(rate, refill_period_us, fairness);
    lemma_refilled_wf(m, now_us);
    let m1 = refilled(m, now_us);
    assert(m1.available == m.burst);
    assert(can_grant_now(m1, bytes, pri));
}

/// A request for more than one burst of bytes is rejected with
/// `InvalidArgument` and changes nothing — whatever the priority, the
/// blocking policy, the clock, and whatever happened before.
pub proof fn lemma_oversized_request_rejected(
    m: LimiterModel,
    bytes: int,
    pri: Priority,
    wait: bool,
    now_us: int,
)
    requires
        bytes > m.burst,
    ensures
        request_outcome(m, bytes, pri, wait, now_us) == Err::<Admission, LimiterError>(
            LimiterError::InvalidArgument,
        ),
        after_request(m, bytes, pri, wait, now_us) == m,
{
}

/// Once closed, a limiter fails every admissible request with `Cancelled`
/// and stays exactly as it is.
pub proof fn lemma_closed_cancels_requests(
    m: LimiterModel,
    bytes: int,
    pri: Priority,
    wait: bool,
    now_us: int,
)
    requires
        m.closed,
        1 <= bytes <= m.burst,
    ensures
        request_outcome(m, bytes, pri, wait, now_us) == Err::<Admission, LimiterError>(
            LimiterError::Cancelled,
        ),
        after_request(m, bytes, pri, wait, now_us) == m,
{
}

/// Closing cancels every queued request at once: the limiter is closed, no
/// request stays queued, and the returned tickets list every high-priority
/// waiter in FIFO order followed by every low-priority waiter in FIFO
/// order. Closing again returns the empty list and changes nothing.
pub proof fn lemma_close_cancels_all(m: LimiterModel)
    requires
        wf(m),
    ensures
        after_close(m).closed,
        after_close(m).queue_high.len() == 0,
        after_close(m).queue_low.len() == 0,
        cancelled_tickets(m).len() == m.queue_high.len() + m.queue_low.len(),
        forall|i: int|
            0 <= i < m.queue_high.len() ==> cancelled_tickets(m)[i] == m.queue_high[i].ticket,
        forall|i: int|
            0 <= i < m.queue_low.len() ==> cancelled_tickets(m)[m.queue_high.len() + i]
                == m.queue_low[i].ticket,
        cancelled_tickets(after_close(m)).len() == 0,
        after_close(after_close(m)) == after_close(m),
{
    assert(after_close(after_close(m)) =~= after_close(m));
}

/// The quantity that bounds throughput: microseconds-scaled bytes granted
/// plus bytes still in the bucket, less what the refill clock has earned at
/// the configured rate. No operation other than a rate change increases it.
pub open spec fn throughput_potential(m: LimiterModel) -> int {
    MICROS_PER_SEC * (m.total_through + m.available) - m.rate * m.last_refill_us
}

/// A trace that never changes the configured rate.
pub open spec fn no_rate_change(ops: Seq<LimiterOp>) -> bool {
    forall|i: int| 0 <= i < ops.len() ==> !((#[trigger] ops[i]) is SetRate)
}

/// A refill credits at most the elapsed clock's worth of bytes at the
/// configured rate, so it cannot increase the throughput potential.
proof fn lemma_refill_potential(m: LimiterModel, now_us: int)
    requires
        wf(m),
    ensures
        throughput_potential(refilled(m, now_us)) <= throughput_potential(m),
{
    if now_us - m.last_refill_us >= m.refill_period_us {
        let elapsed = now_us - m.last_refill_us;
        let credit = refill_credit(m, now_us);
        assert(MICROS_PER_SEC * credit <= m.rate * elapsed) by {
            lemma_fundamental_div_mod(m.rate * elapsed, MICROS_PER_SEC as int);
            lemma_mod_division_less_than_divisor(m.rate * elapsed, MICROS_PER_SEC as int);
        }
        assert(m.rate * elapsed == m.rate * now_us - m.rate * m.last_refill_us) by {
            lemma_mul_is_distributive_sub(m.rate, now_us, m.last_refill_us);
        }
        assert(refilled(m, now_us).available <= m.available + credit);
    }
}

/// No operation short of a rate change increases the throughput potential,
/// and none of them changes the configured rate or the burst capacity.
proof fn lemma_step_potential(m: LimiterModel, op: LimiterOp)
    requires
        wf(m),
        !(op is SetRate),
    ensures
        throughput_potential(step(m, op)) <= throughput_potential(m),
        step(m, op).rate == m.rate,
        step(m, op).burst == m.burst,
{
    match op {
        LimiterOp::Request { bytes, pri, wait, now_us } => {
            if 1 <= bytes <= m.burst && !m.closed {
                lemma_refill_potential(m, now_us);
            }
        },
        LimiterOp::Refill { now_us } => {
            lemma_refill_potential(m, now_us);
        },
        LimiterOp::Grant { .. } => {},
        LimiterOp::SetRate { .. } => {},
        LimiterOp::Close => {},
    }
}

/// Over a whole history, the throughput potential never increases while the
/// rate stays put.
proof fn lemma_run_potential(m: LimiterModel, ops: Seq<LimiterOp>)
    requires
        wf(m),
        machine_ops(ops),
        no_rate_change(ops),
    ensures
        throughput_potential(run(m, ops)) <= throughput_potential(m),
        run(m, ops).rate == m.rate,
        run(m, ops).burst == m.burst,
    decreases ops.len(),
{
    if ops.len() > 0 {
        assert(machine_ops(seq![ops[0]])) by {
            assert(seq![ops[0]][0] == ops[0]);
        }
        lemma_step_potential(m, ops[0]);
        lemma_step_wf(m, ops[0]);
        assert(machine_ops(ops.drop_first()) && no_rate_change(ops.drop_first())) by {
            assert(forall|i: int|
                0 <= i < ops.drop_first().len() ==> #[trigger] ops.drop_first()[i] == ops[i + 1]);
        }
        lemma_run_potential(step(m, ops[0]), ops.drop_first());
    }
}

/// Bounded sustained throughput: over any history that keeps the configured
/// rate, the bytes granted exceed what the refill clock earned at that rate
/// by at most one burst. Scaled by a million to stay in whole microseconds:
/// with `T` the refill clock's advance in microseconds, the grand total of
/// granted bytes is at most `rate * T / 1_000_000 + burst`. After a rate
/// change the same bound restarts with the history since the change.
pub proof fn lemma_throughput_bounded(m: LimiterModel, ops: Seq<LimiterOp>)
    requires
        wf(m),
        machine_ops(ops),
        no_rate_change(ops),
    ensures
        run(m, ops).rate == m.rate,
        run(m, ops).total_through >= m.total_through,
        MICROS_PER_SEC * (run(m, ops).total_through - m.total_through) <= MICROS_PER_SEC * m.burst
            + m.rate * (run(m, ops).last_refill_us - m.last_refill_us),
{
    lemma_run_potential(m, ops);
    lemma_run_wf(m, ops);
    let f = run(m, ops);
    assert(m.rate * f.last_refill_us - m.rate * m.last_refill_us == m.rate * (f.last_refill_us
        - m.last_refill_us)) by {
        lemma_mul_is_distributive_sub(m.rate, f.last_refill_us, m.last_refill_us);
    }
}

/// Close is terminal: after it, whatever else happens — requests, refills,
/// grant decisions, rate changes, further closes — the limiter stays
/// closed, no request ever waits again, and not one more byte is granted.
pub proof fn lemma_closed_stays_closed(m: LimiterModel, ops: Seq<LimiterOp>)
    requires
        wf(m),
        m.closed,
        machine_ops(ops),
    ensures
        run(m, ops).closed,
        run(m, ops).queue_high.len() == 0,
        run(m, ops).queue_low.len() == 0,
        run(m, ops).total_through == m.total_through,
    decreases ops.len(),
{
    if ops.len() > 0 {
        assert(machine_ops(seq![ops[0]])) by {
            assert(seq![ops[0]][0] == ops[0]);
        }
        lemma_step_wf(m, ops[0]);
        let m1 = step(m, ops[0]);
        assert(m1.closed && m1.total_through == m.total_through);
        assert(machine_ops(ops.drop_first())) by {
            assert(forall|i: int|
                0 <= i < ops.drop_first().len() ==> #[trigger] ops.drop_first()[i] == ops[i + 1]);
        }
        lemma_closed_stays_closed(m1, ops.drop_first());
    }
}

/// Refill is idempotent: however often it is called, a clock reading
/// credits at most once. Between periods the extra calls are no-ops, so
/// they never double-credit the bucket.
pub proof fn lemma_refill_idempotent(m: LimiterModel, now_us: int)
    requires
        m.refill_period_us >= 1,
    ensures
        refilled(refilled(m, now_us), now_us) == refilled(m, now_us),
{
}

/// A trace of refills and grant decisions only: the limiter drains its
/// queues but admits nothing new.
pub open spec fn drains_only(ops: Seq<LimiterOp>) -> bool {
    forall|i: int| 0 <= i < ops.len() ==> ((#[trigger] ops[i]) is Refill || ops[i] is Grant)
}

/// FIFO within each priority class: while a limiter drains — any
/// interleaving of refills and grant decisions, any draws — each queue only
/// ever loses its oldest requests. What remains afterwards is exactly the
/// queue's tail: a request is granted only after every request queued
/// before it in its class, and the survivors still stand in arrival order.
pub proof fn lemma_fifo(m: LimiterModel, ops: Seq<LimiterOp>)
    requires
        drains_only(ops),
    ensures
        run(m, ops).queue_high.len() <= m.queue_high.len(),
        run(m, ops).queue_low.len() <= m.queue_low.len(),
        forall|i: int|
            0 <= i < run(m, ops).queue_high.len() ==> #[trigger] run(m, ops).queue_high[i]
                == m.queue_high[m.queue_high.len() - run(m, ops).queue_high.len() + i],
        forall|i: int|
            0 <= i < run(m, ops).queue_low.len() ==> #[trigger] run(m, ops).queue_low[i]
                == m.queue_low[m.queue_low.len() - run(m, ops).queue_low.len() + i],
    decreases ops.len(),
{
    if ops.len() > 0 {
        let m1 = step(m, ops[0]);
        assert(m1.queue_high.len() <= m.queue_high.len() && forall|i: int|
            0 <= i < m1.queue_high.len() ==> #[trigger] m1.queue_high[i] == m.queue_high[
            m.queue_high.len() - m1.queue_high.len() + i]);
        assert(m1.queue_low.len() <= m.queue_low.len() && forall|i: int|
            0 <= i < m1.queue_low.len() ==> #[trigger] m1.queue_low[i] == m.queue_low[
            m.queue_low.len() - m1.queue_low.len() + i]);
        assert(drains_only(ops.drop_first())) by {
            assert(forall|i: int|
                0 <= i < ops.drop_first().len() ==> #[trigger] ops.drop_first()[i] == ops[i + 1]);
        }
        lemma_fifo(m1, ops.drop_first());
    }
}

/// The deterministic half of anti-starvation: whenever a grant decision is
/// contested — both queues hold requests — and the injected draw falls on
/// the low queue's 1-in-`fairness` chance, the oldest low-priority request
/// is served ahead of every waiting high-priority request, provided its
/// bytes fit the bucket. With draws spread over the residues mod `fairness`,
/// a waiting low-priority request is therefore expected to be reached within
/// on the order of `fairness` contested decisions.
pub proof fn lemma_fair_draw_serves_low(m: LimiterModel, draw: int)
    requires
        wf(m),
        m.queue_high.len() > 0,
        m.queue_low.len() > 0,
        draw % m.fairness == 0,
        m.queue_low[0].bytes <= m.available,
    ensures
        grant_outcome(m, draw) == Some(
            GrantedRequest {
                ticket: m.queue_low[0].ticket,
                priority: Priority::Low,
                bytes: m.queue_low[0].bytes,
            },
        ),
        after_grant(m, draw).queue_low == m.queue_low.drop_first(),
        after_grant(m, draw).queue_high == m.queue_high,
{
}

/// The complement: on a contested decision whose draw misses the low
/// queue's chance, strict priority stands and the oldest high-priority
/// request is served, provided its bytes fit the bucket.
pub proof fn lemma_unfair_draw_serves_high(m: LimiterModel, draw: int)
    requires
        wf(m),
        m.queue_high.len() > 0,
        m.queue_low.len() > 0,
        draw % m.fairness != 0,
        m.queue_high[0].bytes <= m.available,
    ensures
        grant_outcome(m, draw) == Some(
            GrantedRequest {
                ticket: m.queue_high[0].ticket,
                priority: Priority::High,
                bytes: m.queue_high[0].bytes,
            },
        ),
        after_grant(m, draw).queue_high == m.queue_high.drop_first(),
        after_grant(m, draw).queue_low == m.queue_low,
{
}

/// A rate change takes hold atomically: the burst capacity is recomputed
/// for the new rate and the bucket never exceeds it, so the capacity
/// invariant holds immediately after the call — from the next refill on,
/// the throughput bound above continues at the new rate.
pub proof fn lemma_set_rate_caps_bucket(m: LimiterModel, rate: int)
    requires
        wf(m),
        1 <= rate <= i64::MAX,
    ensures
        after_set_rate(m, rate).rate == rate,
        after_set_rate(m, rate).burst == burst_for(rate, m.refill_period_us),
        0 <= after_set_rate(m, rate).available <= after_set_rate(m, rate).burst,
        after_set_rate(m, rate).total_through == m.total_through,
        wf(after_set_rate(m, rate)),
{
    lemma_after_set_rate_wf(m, rate);
}

} // verus!
