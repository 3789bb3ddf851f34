use soupbin_feed::nanosecond::UnixNanoseconds;
use soupbin_feed::second::UnixSeconds;
use soupbin_feed::time::{
    FIRST_SECOND_BEFORE_EPOCH, JAKARTA_OFFSET_SECS, MAX_UNIX_SECONDS, NANO_PER_SEC,
};

#[test]
fn second_test_from_u32() {
    let secs = UnixSeconds::from(1_u32);
    assert_eq!(secs.0, 1_u64);
}

#[test]
fn test_from_u64() {
    let secs = UnixSeconds::from(42_u64);
    assert_eq!(secs.0, 42_u64);
}

#[test]
fn test_from_nanoseconds() {
    let ns = UnixNanoseconds(1_500_000_000);
    let secs: UnixSeconds = ns.into();
    assert_eq!(secs.0, 1); // truncates fractional part
}

#[test]
fn test_to_iso8601() {
    let secs = UnixSeconds::from(1_000_000_000_u64);
    let iso = secs.to_iso8601();
    assert!(iso.contains("+07:00"));
}

#[test]
fn test_to_nanoseconds() {
    let secs = UnixSeconds::from(2_u64);
    let ns = secs.to_nanoseconds().unwrap();
    assert_eq!(ns.0, 2 * NANO_PER_SEC);
}

#[test]
fn test_from_bytes_u64() {
    let bytes = [0x00, 0x00, 0x00, 0x00, 0x3B, 0x9A, 0xCA, 0x00];
    let secs = UnixSeconds::from_bytes(&bytes).unwrap();
    assert_eq!(secs.0, 1_000_000_000);
}

#[test]
fn test_from_bytes_u32() {
    let bytes = [0x3B, 0x9A, 0xCA, 0x00];
    let secs = UnixSeconds::from_bytes_u32(&bytes).unwrap();
    assert_eq!(secs.0, 1_000_000_000);
}

#[test]
fn test_from_bytes_insufficient_data() {
    let bytes = [0x3B, 0x9A, 0xCA];
    assert!(UnixSeconds::from_bytes(&bytes).is_err());
    assert!(UnixSeconds::from_bytes_u32(&bytes).is_err());
}

#[test]
fn test_from_bytes_edge_cases() {
    let zero_bytes = [0u8; 8];
    let secs = UnixSeconds::from_bytes(&zero_bytes).unwrap();
    assert_eq!(secs.0, 0);

    let max_u32_bytes = [0xFF, 0xFF, 0xFF, 0xFF];
    let secs = UnixSeconds::from_bytes_u32(&max_u32_bytes).unwrap();
    assert_eq!(secs.0, u32::MAX as u64);

    let max_u64_bytes = [0xFF; 8];
    let secs = UnixSeconds::from_bytes(&max_u64_bytes).unwrap();
    assert_eq!(secs.0, u64::MAX);
}

#[test]
fn seconds_in_iso8601_are_seven_hours_east() {
    assert_eq!(UnixSeconds(0).to_iso8601(), "1970-01-01T07:00:00+07:00");
    assert_eq!(UnixSeconds(946684800).to_iso8601(), "2000-01-01T07:00:00+07:00");
    assert_eq!(UnixSeconds(1_000_000_000).to_iso8601(), "2001-09-09T08:46:40+07:00");
    assert_eq!(JAKARTA_OFFSET_SECS, 7 * 3600);
}

#[test]
fn seconds_reach_the_last_moment_that_a_date_holds() {
    assert_eq!(
        UnixSeconds(MAX_UNIX_SECONDS).to_iso8601(),
        "+262143-01-01T06:59:59+07:00"
    );
    assert!(UnixSeconds(18_446_744_074).to_nanoseconds().is_err());
    assert_eq!(
        UnixSeconds(18_446_744_073).to_nanoseconds(),
        Ok(UnixNanoseconds(18_446_744_073_000_000_000))
    );
}

#[test]
fn seconds_of_more_than_63_bits_lie_before_the_epoch() {
    assert_eq!(UnixSeconds(u64::MAX).to_iso8601(), "1970-01-01T06:59:59+07:00");
    assert_eq!(
        UnixSeconds(FIRST_SECOND_BEFORE_EPOCH).to_iso8601(),
        "-262143-01-01T07:00:00+07:00"
    );
    assert_eq!(FIRST_SECOND_BEFORE_EPOCH, (-8_334_601_228_800i64) as u64);
}
