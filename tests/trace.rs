use constraints_relay::api::ConstraintsApiError;
use constraints_relay::trace::{
    get_nanos_timestamp, nanos_to_timestamp, timestamp_from, ConstraintSubmissionTrace,
};

#[test]
fn clock_reads_after_epoch() {
    let t = get_nanos_timestamp().unwrap();
    assert!(t > 1_600_000_000_000_000_000);
}

#[test]
fn nanos_are_cut_to_64_bits() {
    assert_eq!(nanos_to_timestamp(42), 42);
    assert_eq!(nanos_to_timestamp((1u128 << 64) + 5), 5);
    assert_eq!(nanos_to_timestamp(u64::MAX as u128), u64::MAX);
}

#[test]
fn latencies_saturate() {
    let mut trace = ConstraintSubmissionTrace::received_at(100);
    assert_eq!(trace.decode_latency_ns(), 0);
    trace.decode = 150;
    trace.auctioneer_update = 190;
    trace.request_finish = 220;
    assert_eq!(trace.decode_latency_ns(), 50);
    assert_eq!(trace.auctioneer_latency_ns(), 40);
    assert_eq!(trace.request_duration_ns(), 120);
    trace.request_finish = 10;
    assert_eq!(trace.request_duration_ns(), 0);
}

#[test]
fn clock_readings_become_timestamps() {
    assert_eq!(timestamp_from(Some(1_700_000_000_123_456_789)), Ok(1_700_000_000_123_456_789));
    assert_eq!(timestamp_from(Some((3u128 << 64) + 9)), Ok(9));
    assert_eq!(timestamp_from(Some(0)), Ok(0));
}

#[test]
fn clock_before_epoch_is_internal_error() {
    assert_eq!(timestamp_from(None), Err(ConstraintsApiError::InternalError));
}
