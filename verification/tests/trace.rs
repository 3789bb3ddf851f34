use soupbin_feed::trace::{truncate_to_u64, TraceData};

#[test]
fn traces_measure_the_time_since_receipt() {
    let trace = TraceData::new();
    let _ = crossbeam_channel::after(std::time::Duration::from_millis(20)).recv();
    let nanos = trace.elapsed_nanos();
    let micros = trace.elapsed_micros();
    let millis = trace.elapsed_millis();
    assert!(nanos >= 20_000_000);
    assert!(micros >= 20_000);
    assert!(millis >= 20);
    assert!(millis < 20_000);
    let copy = trace.clone();
    assert_eq!(copy.recv_at, trace.recv_at);
    let _ = TraceData::with_current_context();
    let started = TraceData::default();
    assert!(started.elapsed_millis() < 20_000);
}

#[test]
fn counts_keep_their_low_64_bits() {
    assert_eq!(truncate_to_u64(0), 0);
    assert_eq!(truncate_to_u64(12345), 12345);
    assert_eq!(truncate_to_u64(u64::MAX as u128), u64::MAX);
    assert_eq!(truncate_to_u64(u64::MAX as u128 + 1), 0);
    assert_eq!(truncate_to_u64(u128::MAX), u64::MAX);
}
