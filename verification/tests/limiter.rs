use league_notifier::limiter::Limiter;
use league_notifier::quota::QuotaSet;

#[test]
fn take_decrements_until_exhausted() {
    let mut bucket = Limiter::new(3, 1);
    assert_eq!(bucket.available(), 3);
    assert!(bucket.take().is_ok());
    assert!(bucket.take().is_ok());
    assert!(bucket.take().is_ok());
    assert_eq!(bucket.available(), 0);
    assert!(bucket.take().is_err());
    assert_eq!(bucket.available(), 0);
}

#[test]
fn bucket_bound_over_mixed_operations() {
    let mut bucket = Limiter::new(5, 1);
    let capacity = bucket.capacity();
    for round in 0..4u32 {
        for _ in 0..round {
            let _ = bucket.take();
            assert!(bucket.available() <= capacity);
        }
        bucket.refill();
        assert_eq!(bucket.available(), capacity);
        bucket.empty();
        assert_eq!(bucket.available(), 0);
        assert!(bucket.take().is_err());
        bucket.refill();
    }
    assert_eq!(bucket.available(), capacity);
}

#[test]
fn refill_restores_drained_bucket_to_capacity() {
    let mut bucket = Limiter::new(20, 1);
    for _ in 0..20 {
        assert!(bucket.take().is_ok());
    }
    assert_eq!(bucket.available(), 0);
    bucket.refill();
    assert_eq!(bucket.available(), 20);
    assert_eq!(bucket.refill_period_secs(), 1);
}

#[test]
fn twenty_acquisitions_from_full_quota_set() {
    let mut quota = QuotaSet::new(vec![Limiter::new(20, 1), Limiter::new(100, 120)]);
    for _ in 0..20 {
        assert!(quota.acquire_all().is_ok());
    }
    assert_eq!(quota.available(0), 0);
    assert_eq!(quota.available(1), 80);
    assert!(quota.acquire_all().is_err());
    assert_eq!(quota.available(0), 0);
    assert_eq!(quota.available(1), 80);
}

#[test]
fn drain_halts_consumption_until_refill() {
    let mut quota = QuotaSet::new(vec![Limiter::new(20, 1), Limiter::new(100, 120)]);
    quota.drain_all();
    for _ in 0..5 {
        assert!(quota.acquire_all().is_err());
        assert_eq!(quota.available(0), 0);
        assert_eq!(quota.available(1), 0);
    }
    quota.refill_all();
    assert!(quota.acquire_all().is_ok());
    assert_eq!(quota.available(0), 19);
    assert_eq!(quota.available(1), 99);
}

#[test]
fn standard_quota_has_both_windows() {
    let quota = QuotaSet::default();
    assert_eq!(quota.len(), 2);
    assert_eq!(quota.capacity(0), 20);
    assert_eq!(quota.capacity(1), 100);
    assert_eq!(quota.available(0), 20);
    assert_eq!(quota.available(1), 100);
}

#[test]
fn failed_acquisition_stops_at_first_exhausted_bucket() {
    let mut quota = QuotaSet::new(vec![Limiter::new(2, 1), Limiter::new(1, 1), Limiter::new(5, 1)]);
    assert!(quota.acquire_all().is_ok());
    // bucket two is now empty: the next pass takes from bucket one only
    assert!(quota.acquire_all().is_err());
    assert_eq!(quota.available(0), 0);
    assert_eq!(quota.available(1), 0);
    assert_eq!(quota.available(2), 4);
}
