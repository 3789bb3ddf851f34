use soupbin_feed::elapsed_nanos::ElapsedNanos;

#[test]
fn elapsed_nanos_test_from_u32() {
    let elapsed = ElapsedNanos::from(123456789u32);
    assert_eq!(elapsed.0, 123456789);
}

#[test]
fn test_to_u64() {
    let elapsed = ElapsedNanos(999999999);
    let as_u64: u64 = elapsed.into();
    assert_eq!(as_u64, 999999999u64);
}

#[test]
fn test_ordering() {
    let a = ElapsedNanos(100);
    let b = ElapsedNanos(200);
    assert!(a < b);
    assert_eq!(a, ElapsedNanos(100));
}
