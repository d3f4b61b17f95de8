use hello_world_grpc::utils::{
    duration_millis, extract_client_info, wrapping_predecessor, wrapping_sum, RequestTimer,
    SimpleMetrics,
};
use std::time::Duration;

#[test]
fn test_new_metrics_have_counted_nothing() {
    let metrics = SimpleMetrics::new();
    assert_eq!(metrics.requests_total, 0);
    assert_eq!(metrics.requests_success, 0);
    assert_eq!(metrics.requests_error, 0);
    assert_eq!(metrics.total_duration_ms, 0);
    assert_eq!(metrics.active_streams, 0);
    assert_eq!(metrics.streams_started, 0);
    assert_eq!(metrics.streams_completed, 0);
    let summary = metrics.log_summary();
    assert_eq!(summary.avg_duration_ms, 0);
    assert_eq!(summary.success_rate_percent, 0);
}

#[test]
fn test_metrics_record_each_event() {
    let mut metrics = SimpleMetrics::new();
    metrics.record_request(40);
    metrics.record_success();
    metrics.record_request(11);
    metrics.record_error();
    metrics.record_request(10);
    metrics.record_success();
    metrics.record_stream_started();
    metrics.record_stream_started();
    metrics.record_stream_completed();
    assert_eq!(metrics.requests_total, 3);
    assert_eq!(metrics.requests_success, 2);
    assert_eq!(metrics.requests_error, 1);
    assert_eq!(metrics.total_duration_ms, 61);
    assert_eq!(metrics.streams_started, 2);
    assert_eq!(metrics.active_streams, 1);
    assert_eq!(metrics.streams_completed, 1);

    let summary = metrics.log_summary();
    assert_eq!(summary.requests_total, 3);
    assert_eq!(summary.requests_success, 2);
    assert_eq!(summary.requests_error, 1);
    assert_eq!(summary.avg_duration_ms, 20);
    assert_eq!(summary.success_rate_percent, 66);
    assert_eq!(summary.active_streams, 1);
    assert_eq!(summary.streams_started, 2);
    assert_eq!(summary.streams_completed, 1);
}

#[test]
fn test_metrics_summary_of_uneven_counters() {
    // A summary may be taken between two updates of one call.
    let mut metrics = SimpleMetrics::new();
    metrics.record_success();
    assert_eq!(metrics.log_summary().success_rate_percent, 0);
    metrics.record_request(5);
    assert_eq!(metrics.log_summary().success_rate_percent, 100);
    metrics.record_success();
    metrics.record_success();
    assert_eq!(metrics.log_summary().success_rate_percent, 300);
    metrics.requests_success = u64::MAX;
    assert_eq!(
        metrics.log_summary().success_rate_percent,
        u64::MAX as u128 * 100
    );
}

#[test]
fn test_counters_start_again_after_their_largest_value() {
    let mut metrics = SimpleMetrics::new();
    metrics.requests_total = u64::MAX;
    metrics.total_duration_ms = u64::MAX - 1;
    metrics.record_request(5);
    assert_eq!(metrics.requests_total, 0);
    assert_eq!(metrics.total_duration_ms, 3);
    // Closing a stream that was never counted as open.
    metrics.record_stream_completed();
    assert_eq!(metrics.active_streams, u64::MAX);
    assert_eq!(metrics.streams_completed, 1);
    metrics.record_stream_started();
    assert_eq!(metrics.active_streams, 0);
    assert_eq!(wrapping_sum(u64::MAX, u64::MAX), u64::MAX - 1);
    assert_eq!(wrapping_sum(3, 4), 7);
    assert_eq!(wrapping_sum(7, u64::MAX), 6);
    assert_eq!(wrapping_predecessor(0), u64::MAX);
    assert_eq!(wrapping_predecessor(9), 8);
}

#[test]
fn test_client_info_address() {
    let known = extract_client_info(Some("192.168.1.9:5001".to_string()));
    assert_eq!(known.addr, "192.168.1.9:5001");
    let unknown = extract_client_info(None);
    assert_eq!(unknown.addr, "unknown");
    assert_ne!(known.request_id, unknown.request_id);
    assert_eq!(known.request_id.get_version_num(), 4);
    let copy = known.clone();
    assert_eq!(copy.addr, known.addr);
    assert_eq!(copy.request_id, known.request_id);
}

#[test]
fn test_request_timer() {
    let id = uuid::Uuid::from_u128(0x1234);
    let timer = RequestTimer::start(id);
    assert_eq!(timer.request_id(), id);
    let first = timer.elapsed();
    let second = timer.elapsed();
    assert!(first <= second);
    assert!(timer.elapsed_ms() < 60_000);
}

#[test]
fn test_duration_millis() {
    assert_eq!(duration_millis(Duration::from_micros(1_999)), 1);
    assert_eq!(duration_millis(Duration::from_secs(2)), 2000);
    assert_eq!(duration_millis(Duration::ZERO), 0);
    // Cut down to 64 bits, as a cast does.
    assert_eq!(
        duration_millis(Duration::MAX),
        Duration::MAX.as_millis() as u64
    );
}
