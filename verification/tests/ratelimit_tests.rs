use folio_backend::error::AppError;
use folio_backend::ratelimit::check_rate;
use folio_backend::ratelimit::TokenBucket;

#[test]
fn burst_admits_exactly_capacity_within_one_interval() {
    let mut bucket = TokenBucket::new(10, 5, 1_000);
    let mut verdicts = Vec::new();
    for _ in 0..7 {
        verdicts.push(bucket.allow(1_000));
    }
    assert_eq!(verdicts, vec![true, true, true, true, true, false, false]);
}

#[test]
fn bucket_refills_after_the_interval() {
    let mut bucket = TokenBucket::new(10, 5, 1_000);
    for _ in 0..5 {
        assert!(bucket.allow(1_000));
    }
    assert!(!bucket.allow(1_000));
    // One second later ten tokens accrue, clamped at the burst of five.
    assert!(bucket.allow(1_001));
}

#[test]
fn slow_refill_rate_grants_tokens_gradually() {
    let mut bucket = TokenBucket::new(1, 3, 0);
    assert!(bucket.allow(0));
    assert!(bucket.allow(0));
    assert!(bucket.allow(0));
    assert!(!bucket.allow(0));
    assert!(bucket.allow(2));
    assert!(bucket.allow(2));
    assert!(!bucket.allow(2));
}

#[test]
fn idle_bucket_never_exceeds_capacity() {
    let mut bucket = TokenBucket::new(10, 2, 0);
    // A long idle stretch refills far more than the burst; only two pass.
    assert!(bucket.allow(1_000_000));
    assert!(bucket.allow(1_000_000));
    assert!(!bucket.allow(1_000_000));
}

#[test]
fn rate_gate_maps_rejection_to_error() {
    let mut bucket = TokenBucket::new(10, 1, 0);
    assert!(check_rate(&mut bucket, 0).is_ok());
    let err = check_rate(&mut bucket, 0).unwrap_err();
    assert!(matches!(&err, AppError::RateLimited(m) if m == "Too many requests"));
    assert_eq!(err.status(), 429);
}
