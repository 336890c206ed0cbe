use rocks::rate_limiter::{
    priority_for_operation, Admission, GrantedRequest, LimiterError, OperationKind, Priority,
    RateLimiter,
};

#[test]
fn new_validates_parameters() {
    assert!(matches!(
        RateLimiter::new(0, 100_000, 10),
        Err(LimiterError::InvalidArgument)
    ));
    assert!(matches!(
        RateLimiter::new(-5, 100_000, 10),
        Err(LimiterError::InvalidArgument)
    ));
    assert!(matches!(
        RateLimiter::new(1_000_000, 0, 10),
        Err(LimiterError::InvalidArgument)
    ));
    assert!(matches!(
        RateLimiter::new(1_000_000, -1, 10),
        Err(LimiterError::InvalidArgument)
    ));
    assert!(matches!(
        RateLimiter::new(1_000_000, 100_000, 0),
        Err(LimiterError::InvalidArgument)
    ));
    assert!(RateLimiter::new(1_000_000, 100_000, 10).is_ok());
    assert!(RateLimiter::new(1, 1, 1).is_ok());
}

#[test]
fn burst_is_one_period_of_rate() {
    let l = RateLimiter::new(1_000_000, 100_000, 10).unwrap();
    assert_eq!(l.get_single_burst_bytes(), 100_000);

    let l = RateLimiter::new(10_000_000, 100_000, 10).unwrap();
    assert_eq!(l.get_single_burst_bytes(), 1_000_000);

    let l = RateLimiter::new(1_000, 1_000, 1).unwrap();
    assert_eq!(l.get_single_burst_bytes(), 1);

    // The product of rate and period does not fit a signed 64-bit integer:
    // the burst saturates at i64::MAX microseconds' worth per second.
    let l = RateLimiter::new(i64::MAX, 2, 1).unwrap();
    assert_eq!(l.get_single_burst_bytes(), i64::MAX / 1_000_000);
}

#[test]
fn fresh_request_granted_without_blocking() {
    // A single request of at most one burst on a fresh, idle limiter is
    // granted immediately, for either priority and blocking policy.
    let mut l = RateLimiter::new(1_000_000, 100_000, 10).unwrap();
    assert_eq!(l.request(100_000, Priority::High, false, 0), Ok(Admission::Granted));

    let mut l = RateLimiter::new(500, 2_000_000, 3).unwrap();
    assert_eq!(l.get_single_burst_bytes(), 1_000);
    assert_eq!(l.request(1_000, Priority::Low, true, 7), Ok(Admission::Granted));

    let mut l = RateLimiter::new(1_000_000, 100_000, 1).unwrap();
    assert_eq!(l.request(1, Priority::Low, false, -50), Ok(Admission::Granted));
}

#[test]
fn oversized_request_rejected() {
    let mut l = RateLimiter::new(1_000_000, 100_000, 10).unwrap();
    let burst = l.get_single_burst_bytes();
    assert_eq!(
        l.request(burst + 1, Priority::High, true, 0),
        Err(LimiterError::InvalidArgument)
    );
    assert_eq!(
        l.request(burst + 1, Priority::Low, false, 0),
        Err(LimiterError::InvalidArgument)
    );
    assert_eq!(
        l.request(i64::MAX, Priority::High, true, 0),
        Err(LimiterError::InvalidArgument)
    );
    // A non-positive byte count is no valid request either.
    assert_eq!(l.request(0, Priority::High, true, 0), Err(LimiterError::InvalidArgument));
    assert_eq!(l.request(-1, Priority::Low, true, 0), Err(LimiterError::InvalidArgument));
    // Rejections consumed nothing.
    assert_eq!(l.get_total_bytes_through(), 0);
    // The rejection does not depend on prior calls: it still holds after
    // traffic and even after close.
    assert_eq!(l.request(burst, Priority::High, true, 0), Ok(Admission::Granted));
    assert_eq!(
        l.request(burst + 1, Priority::Low, true, 0),
        Err(LimiterError::InvalidArgument)
    );
    l.close();
    assert_eq!(
        l.request(burst + 1, Priority::High, true, 0),
        Err(LimiterError::InvalidArgument)
    );
}

#[test]
fn nonblocking_request_exhausted() {
    let mut l = RateLimiter::new(1_000_000, 100_000, 10).unwrap();
    assert_eq!(l.request(100_000, Priority::High, false, 0), Ok(Admission::Granted));
    // The bucket is empty and no refill period has elapsed: a non-waiting
    // request fails fast and is not queued.
    assert_eq!(l.request(1, Priority::High, false, 0), Err(LimiterError::Exhausted));
    assert_eq!(l.request(1, Priority::Low, false, 0), Err(LimiterError::Exhausted));
    // A waiting request in the same situation queues instead.
    assert_eq!(l.request(1, Priority::High, true, 0), Ok(Admission::Enqueued(0)));
    // And once somebody waits ahead, even affordable non-waiting requests of
    // that class are exhausted rather than allowed to overtake.
    l.refill(100_000);
    assert_eq!(l.request(1, Priority::High, false, 100_000), Err(LimiterError::Exhausted));
}

#[test]
fn scenario_flush_then_compaction() {
    // rate 1,000,000 bytes/s with a 100,000 us refill period: burst 100,000.
    let mut l = RateLimiter::new(1_000_000, 100_000, 10).unwrap();
    assert_eq!(l.get_single_burst_bytes(), 100_000);

    // A 60,000-byte flush is granted immediately, leaving 40,000 bytes.
    assert_eq!(l.request(60_000, Priority::High, true, 0), Ok(Admission::Granted));

    // A 60,000-byte compaction no longer fits and blocks under ticket 0.
    assert_eq!(l.request(60_000, Priority::Low, true, 0), Ok(Admission::Enqueued(0)));

    // Only 40,000 bytes remain: exactly 40,000 more would be grantable, but
    // nothing beyond it, which pins the bucket's content.
    assert_eq!(l.request(40_001, Priority::High, false, 0), Err(LimiterError::Exhausted));

    // After 100 ms the refill tops the bucket back up to the 100,000-byte
    // cap, and the queued compaction is granted.
    l.refill(100_000);
    assert_eq!(
        l.grant_one(7),
        Some(GrantedRequest { ticket: 0, priority: Priority::Low, bytes: 60_000 })
    );
    assert_eq!(l.get_total_bytes_through(), 120_000);
    // 40,000 bytes remain in the bucket afterwards.
    assert_eq!(l.request(40_000, Priority::High, false, 100_000), Ok(Admission::Granted));
    assert_eq!(l.request(1, Priority::High, false, 100_000), Err(LimiterError::Exhausted));
}

#[test]
fn refill_is_idempotent_within_a_period() {
    let mut l = RateLimiter::new(1_000_000, 100_000, 10).unwrap();
    assert_eq!(l.request(100_000, Priority::High, true, 0), Ok(Admission::Granted));
    // Calls between periods credit nothing.
    l.refill(50_000);
    l.refill(99_999);
    assert_eq!(l.request(1, Priority::High, false, 99_999), Err(LimiterError::Exhausted));
    // A whole period credits one burst; repeating the same reading does not
    // double-credit.
    l.refill(100_000);
    l.refill(100_000);
    assert_eq!(l.request(100_000, Priority::High, false, 100_000), Ok(Admission::Granted));
    assert_eq!(l.request(1, Priority::High, false, 100_000), Err(LimiterError::Exhausted));
}

#[test]
fn clock_moving_backwards_credits_nothing() {
    let mut l = RateLimiter::new(1_000_000, 100_000, 10).unwrap();
    l.refill(300_000);
    assert_eq!(l.request(100_000, Priority::High, true, 300_000), Ok(Admission::Granted));
    // The clock jumps back: no credit, and no crash.
    l.refill(100_000);
    l.refill(-400_000);
    assert_eq!(l.request(1, Priority::High, false, 100_000), Err(LimiterError::Exhausted));
    // Time moving forward again refills as usual.
    l.refill(400_000);
    assert_eq!(l.request(100_000, Priority::High, false, 400_000), Ok(Admission::Granted));
}

#[test]
fn fifo_within_one_priority_class() {
    let mut l = RateLimiter::new(1_000_000, 100_000, 10).unwrap();
    assert_eq!(l.request(100_000, Priority::High, true, 0), Ok(Admission::Granted));
    // Three compactions queue up in arrival order.
    assert_eq!(l.request(60_000, Priority::Low, true, 0), Ok(Admission::Enqueued(0)));
    assert_eq!(l.request(60_000, Priority::Low, true, 0), Ok(Admission::Enqueued(1)));
    assert_eq!(l.request(60_000, Priority::Low, true, 0), Ok(Admission::Enqueued(2)));
    // Grants come strictly in ticket order, over several refills.
    l.refill(100_000);
    assert_eq!(
        l.grant_one(0),
        Some(GrantedRequest { ticket: 0, priority: Priority::Low, bytes: 60_000 })
    );
    // 40,000 bytes left: the next head does not fit yet.
    assert_eq!(l.grant_one(0), None);
    l.refill(200_000);
    assert_eq!(
        l.grant_one(0),
        Some(GrantedRequest { ticket: 1, priority: Priority::Low, bytes: 60_000 })
    );
    assert_eq!(l.grant_one(0), None);
    l.refill(300_000);
    assert_eq!(
        l.grant_one(0),
        Some(GrantedRequest { ticket: 2, priority: Priority::Low, bytes: 60_000 })
    );
    assert_eq!(l.grant_one(0), None);
}

#[test]
fn contested_grants_follow_the_draw() {
    // fairness 4: a draw divisible by 4 gives the low queue its chance.
    let mut l = RateLimiter::new(1_000_000, 100_000, 4).unwrap();
    assert_eq!(l.request(100_000, Priority::High, true, 0), Ok(Admission::Granted));
    assert_eq!(l.request(30_000, Priority::High, true, 0), Ok(Admission::Enqueued(0)));
    assert_eq!(l.request(30_000, Priority::Low, true, 0), Ok(Admission::Enqueued(1)));
    assert_eq!(l.request(30_000, Priority::High, true, 0), Ok(Admission::Enqueued(2)));
    l.refill(100_000);
    // Contested decision, draw misses the chance: strict priority serves the
    // oldest flush.
    assert_eq!(
        l.grant_one(5),
        Some(GrantedRequest { ticket: 0, priority: Priority::High, bytes: 30_000 })
    );
    // Contested decision, draw falls on the chance: the compaction overtakes
    // the remaining flush.
    assert_eq!(
        l.grant_one(8),
        Some(GrantedRequest { ticket: 1, priority: Priority::Low, bytes: 30_000 })
    );
    // Only flushes wait now: the draw no longer matters.
    assert_eq!(
        l.grant_one(12),
        Some(GrantedRequest { ticket: 2, priority: Priority::High, bytes: 30_000 })
    );
    assert_eq!(l.grant_one(3), None);
}

#[test]
fn fairness_one_always_gives_low_its_chance() {
    let mut l = RateLimiter::new(1_000_000, 100_000, 1).unwrap();
    assert_eq!(l.request(100_000, Priority::High, true, 0), Ok(Admission::Granted));
    assert_eq!(l.request(10_000, Priority::High, true, 0), Ok(Admission::Enqueued(0)));
    assert_eq!(l.request(10_000, Priority::Low, true, 0), Ok(Admission::Enqueued(1)));
    l.refill(100_000);
    // Every draw is divisible by 1: each contested decision serves low.
    assert_eq!(
        l.grant_one(17),
        Some(GrantedRequest { ticket: 1, priority: Priority::Low, bytes: 10_000 })
    );
    assert_eq!(
        l.grant_one(17),
        Some(GrantedRequest { ticket: 0, priority: Priority::High, bytes: 10_000 })
    );
}

#[test]
fn close_cancels_every_queued_request() {
    let mut l = RateLimiter::new(1_000_000, 100_000, 10).unwrap();
    assert_eq!(l.request(100_000, Priority::High, true, 0), Ok(Admission::Granted));
    assert_eq!(l.request(10_000, Priority::Low, true, 0), Ok(Admission::Enqueued(0)));
    assert_eq!(l.request(10_000, Priority::High, true, 0), Ok(Admission::Enqueued(1)));
    assert_eq!(l.request(10_000, Priority::Low, true, 0), Ok(Admission::Enqueued(2)));
    assert_eq!(l.request(10_000, Priority::High, true, 0), Ok(Admission::Enqueued(3)));
    // Every blocked request is cancelled at once: high-priority waiters
    // first, each class in FIFO order.
    assert_eq!(l.close(), vec![1, 3, 0, 2]);
    // All later requests fail immediately.
    assert_eq!(l.request(1, Priority::High, true, 0), Err(LimiterError::Cancelled));
    assert_eq!(l.request(1, Priority::Low, false, 500_000), Err(LimiterError::Cancelled));
    // Closing again is a no-op with nothing left to cancel.
    assert_eq!(l.close(), Vec::<u64>::new());
    // Nothing was granted by the cancellations.
    assert_eq!(l.get_total_bytes_through(), 100_000);
}

#[test]
fn set_rate_validates_and_reshapes_the_bucket() {
    let mut l = RateLimiter::new(1_000_000, 100_000, 10).unwrap();
    assert_eq!(l.set_bytes_per_second(0), Err(LimiterError::InvalidArgument));
    assert_eq!(l.set_bytes_per_second(-3), Err(LimiterError::InvalidArgument));
    assert_eq!(l.get_single_burst_bytes(), 100_000);

    // Halving the rate halves the burst, and the full bucket is clamped
    // down to the new capacity at once.
    assert_eq!(l.set_bytes_per_second(500_000), Ok(()));
    assert_eq!(l.get_single_burst_bytes(), 50_000);
    assert_eq!(l.request(50_000, Priority::High, false, 0), Ok(Admission::Granted));
    assert_eq!(l.request(1, Priority::High, false, 0), Err(LimiterError::Exhausted));
    assert_eq!(l.request(50_001, Priority::High, true, 0), Err(LimiterError::InvalidArgument));
}

#[test]
fn grant_rate_follows_a_rate_change() {
    let mut l = RateLimiter::new(1_000_000, 100_000, 10).unwrap();
    assert_eq!(l.request(100_000, Priority::High, true, 0), Ok(Admission::Granted));
    assert_eq!(l.set_bytes_per_second(200_000), Ok(()));
    // From the next refill on, each period earns the new rate's worth:
    // 200,000 bytes/s for 100,000 us is 20,000 bytes per period.
    let mut now = 0i64;
    for _ in 0..5 {
        now += 100_000;
        l.refill(now);
        assert_eq!(l.request(20_000, Priority::High, false, now), Ok(Admission::Granted));
        assert_eq!(l.request(1, Priority::High, false, now), Err(LimiterError::Exhausted));
    }
    assert_eq!(l.get_total_bytes_through(), 200_000);
}

#[test]
fn sustained_throughput_stays_within_one_burst_of_the_rate() {
    // Back-to-back burst-sized flushes for one simulated second.
    let rate = 1_000_000i64;
    let period = 100_000i64;
    let mut l = RateLimiter::new(rate, period, 10).unwrap();
    let burst = l.get_single_burst_bytes();
    let mut now = 0i64;
    let duration = 1_000_000i64;
    while now <= duration {
        l.refill(now);
        while let Ok(Admission::Granted) = l.request(burst, Priority::High, false, now) {}
        now += period;
    }
    let total = l.get_total_bytes_through() as i64;
    let expected = rate * duration / 1_000_000;
    // Granted bytes stay within one burst of rate times elapsed time.
    assert!(total <= expected + burst);
    assert!(total >= expected - burst);
    // For this deterministic clock the total is exactly the earned bytes
    // plus the initial burst.
    assert_eq!(total, expected + burst);
}

#[test]
fn total_bytes_through_is_monotone() {
    let mut l = RateLimiter::new(1_000_000, 100_000, 10).unwrap();
    let mut last = 0u64;
    let mut now = 0i64;
    for i in 0..20 {
        if i % 3 == 0 {
            l.refill(now);
        }
        let _ = l.request(30_000, Priority::Low, i % 2 == 0, now);
        let _ = l.grant_one(i as u64);
        let t = l.get_total_bytes_through();
        assert!(t >= last);
        last = t;
        now += 40_000;
    }
}

#[test]
fn flushes_are_high_priority_compactions_low() {
    assert_eq!(priority_for_operation(OperationKind::Flush), Priority::High);
    assert_eq!(priority_for_operation(OperationKind::Compaction), Priority::Low);
}
