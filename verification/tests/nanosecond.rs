use soupbin_feed::elapsed_nanos::ElapsedNanos;
use soupbin_feed::nanosecond::UnixNanoseconds;
use soupbin_feed::second::UnixSeconds;
use soupbin_feed::time::NANO_PER_SEC;

#[test]
fn try_from_seconds_ok() {
    let s = UnixSeconds(1);
    let ns = UnixNanoseconds::try_from(s).unwrap();
    assert_eq!(ns.0, 1_000_000_000);
}

#[test]
fn try_from_seconds_overflow() {
    let seconds = 18_446_744_074u64; // exceeds u64::MAX / 1_000_000_000
    assert!(UnixNanoseconds::from_seconds_checked(seconds).is_err());
}

#[test]
fn to_iso8601() {
    let ns = UnixNanoseconds::try_from(UnixSeconds(0)).unwrap();
    let iso_str = ns.to_iso8601();
    assert_eq!(iso_str, "1970-01-01T07:00:00+07:00");
}

#[test]
fn from_u32() {
    let ns = UnixNanoseconds::from(1234567890u32);
    assert_eq!(ns.0, 1234567890u64);
}

#[test]
fn from_u64() {
    let ns = UnixNanoseconds::from(1234567890123456789u64);
    assert_eq!(ns.0, 1234567890123456789u64);
}

#[test]
fn from_bytes_u64() {
    let bytes = [0x00, 0x00, 0x00, 0x00, 0x3B, 0x9A, 0xCA, 0x00]; // 1_000_000_000
    let ns = UnixNanoseconds::from_bytes(&bytes).unwrap();
    assert_eq!(ns.0, 1_000_000_000);
}

#[test]
fn from_bytes_u32() {
    let bytes = [0x3B, 0x9A, 0xCA, 0x00]; // 1_000_000_000
    let ns = UnixNanoseconds::from_bytes_u32(&bytes).unwrap();
    assert_eq!(ns.0, 1_000_000_000);
}

#[test]
fn from_bytes_insufficient_data() {
    let bytes = [0x3B, 0x9A, 0xCA];
    assert!(UnixNanoseconds::from_bytes(&bytes).is_err());
    assert!(UnixNanoseconds::from_bytes_u32(&bytes).is_err());
}

#[test]
fn from_bytes_edge_cases() {
    let zero_bytes = [0u8; 8];
    let ns = UnixNanoseconds::from_bytes(&zero_bytes).unwrap();
    assert_eq!(ns.0, 0);

    let max_u32_bytes = [0xFF, 0xFF, 0xFF, 0xFF];
    let ns = UnixNanoseconds::from_bytes_u32(&max_u32_bytes).unwrap();
    assert_eq!(ns.0, u32::MAX as u64);

    let max_u64_bytes = [0xFF; 8];
    let ns = UnixNanoseconds::from_bytes(&max_u64_bytes).unwrap();
    assert_eq!(ns.0, u64::MAX);
}

#[test]
fn test_add_elapsed_nanos() {
    let base = UnixNanoseconds(1_000_000_000);
    let elapsed = ElapsedNanos(123456789);
    let result = base + elapsed;
    assert_eq!(result.0, 1_123_456_789);
}

#[test]
fn test_add_u32() {
    let base = UnixNanoseconds(1_000_000_000);
    let result = base + 500_000_000u32;
    assert_eq!(result.0, 1_500_000_000);
}

#[test]
fn test_add_u64() {
    let base = UnixNanoseconds(1_000_000_000);
    let result = base + 2_000_000_000u64;
    assert_eq!(result.0, 3_000_000_000);
}

#[test]
fn test_seconds_to_nanos_with_elapsed() {
    // A feed's timestamp: the last announced second plus the nanoseconds since.
    let last_seconds = UnixSeconds(1700000000);
    let base_nanos = UnixNanoseconds::try_from(last_seconds).unwrap();
    let elapsed = ElapsedNanos(999999999);
    let final_timestamp = base_nanos + elapsed;

    assert_eq!(final_timestamp.0, 1700000000 * NANO_PER_SEC + 999999999);
}

#[test]
fn seconds_turn_into_nanoseconds_up_to_the_last_that_fits() {
    assert_eq!(
        UnixNanoseconds::from_seconds_checked(18_446_744_073).unwrap().0,
        18_446_744_073_000_000_000
    );
    assert_eq!(
        UnixNanoseconds::from_seconds_checked(18_446_744_074),
        Err("seconds * 1_000_000_000 overflowed u64")
    );
    assert_eq!(UnixNanoseconds::from_seconds_checked(0), Ok(UnixNanoseconds(0)));
}

#[test]
fn nanoseconds_show_their_fraction_in_iso8601() {
    assert_eq!(
        UnixNanoseconds(1_500_000_000).to_iso8601(),
        "1970-01-01T07:00:01.500+07:00"
    );
    assert_eq!(
        UnixNanoseconds(1_000_000_000_123_456_789).to_iso8601(),
        "2001-09-09T08:46:40.123456789+07:00"
    );
    assert_eq!(
        UnixNanoseconds(u64::MAX).to_iso8601(),
        "2554-07-22T06:34:33.709551615+07:00"
    );
}
