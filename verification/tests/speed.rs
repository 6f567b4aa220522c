use bargozin::resolver::{RESOLVE_ATTEMPTS, RESOLVE_TIMEOUT_SECS};
use bargozin::speed::{
    begin_streaming, budget_exhausted, remaining_budget_ms, resolution_failed_message,
    resolution_timed_out_result,
    resolution_timeout_message, should_yield, speed_failure_result, speed_success_result,
    throughput_bits_per_second, CANCEL_DELAY_MS,
};

#[test]
fn throughput_ten_megabytes_in_one_second_is_eighty_mbps() {
    let bps = throughput_bits_per_second(10_000_000, 1000);
    assert_eq!(bps, 80_000_000);
    let mbps = bps as f64 / 1_000_000.0;
    assert_eq!(mbps, 80.0);
}

#[test]
fn throughput_examples() {
    assert_eq!(throughput_bits_per_second(0, 1000), 0);
    assert_eq!(throughput_bits_per_second(1_000_000, 500), 16_000_000);
    assert_eq!(throughput_bits_per_second(125, 1000), 1000);
}

#[test]
fn throughput_zero_elapsed_is_zero() {
    assert_eq!(throughput_bits_per_second(10_000_000, 0), 0);
}

#[test]
fn remaining_budget_arithmetic() {
    assert_eq!(remaining_budget_ms(10_000, 4_000), 6_000);
    assert_eq!(remaining_budget_ms(10_000, 10_000), 0);
    assert_eq!(remaining_budget_ms(10_000, 12_000), 0);
    assert!(!budget_exhausted(10_000, 9_999));
    assert!(budget_exhausted(10_000, 10_000));
}

#[test]
fn yield_points() {
    assert!(should_yield(1024 * 1024, 0));
    assert!(should_yield(2 * 1024 * 1024, 10));
    assert!(!should_yield(1024 * 1024 + 1, 10));
    assert!(should_yield(3, 2000));
    assert!(!should_yield(3, 1999));
}

#[test]
fn resolution_timeout_record() {
    let r = resolution_timed_out_result(
        "https://example.com/file".to_string(),
        "1.0.0.1".to_string(),
        7,
        5,
    );
    assert!(!r.success);
    assert_eq!(
        r.error_message.as_deref(),
        Some("DNS resolution timed out after 7 seconds")
    );
    assert!(r.resolution_time_ms.is_none());
    assert_eq!(r.download_speed_bps, 0);
    assert_eq!(r.downloaded_bytes, 0);
    assert_eq!(r.test_duration_ms, 0);
    assert_eq!(r.dns_server, "1.0.0.1");
    assert_eq!(r.url, "https://example.com/file");
    assert_eq!(r.session_id, 5);
}

#[test]
fn failure_record_fields() {
    let r = speed_failure_result(
        "https://example.com/file".to_string(),
        "8.8.8.8".to_string(),
        "Unsupported scheme".to_string(),
        2,
    );
    assert!(!r.success);
    assert_eq!(r.error_message.as_deref(), Some("Unsupported scheme"));
    assert_eq!(r.download_speed_bps, 0);
    assert_eq!(r.downloaded_bytes, 0);
    assert!(r.resolution_time_ms.is_none());
}

#[test]
fn success_record_measures_throughput() {
    let r = speed_success_result(
        "https://example.com/file".to_string(),
        "8.8.8.8".to_string(),
        10_000_000,
        1000,
        120,
        3,
    );
    assert!(r.success);
    assert_eq!(r.download_speed_bps, 80_000_000);
    assert_eq!(r.downloaded_bytes, 10_000_000);
    assert_eq!(r.test_duration_ms, 1000);
    assert_eq!(r.resolution_time_ms, Some(120));
    assert!(r.error_message.is_none());
    assert_eq!(r.session_id, 3);
}

#[test]
fn non_2xx_response_is_not_streamed() {
    assert!(begin_streaming(200).is_none());
    assert!(begin_streaming(299).is_none());
    assert_eq!(
        begin_streaming(404).as_deref(),
        Some("HTTP request failed: status 404")
    );
    assert_eq!(
        begin_streaming(500).as_deref(),
        Some("HTTP request failed: status 500")
    );
}

#[test]
fn failure_messages() {
    assert_eq!(
        resolution_timeout_message(30),
        "DNS resolution timed out after 30 seconds"
    );
    assert_eq!(
        resolution_failed_message("no record"),
        "DNS resolution failed: no record"
    );
}

#[test]
fn probe_policy_constants() {
    assert_eq!(RESOLVE_TIMEOUT_SECS, 5);
    assert_eq!(RESOLVE_ATTEMPTS, 2);
    assert_eq!(CANCEL_DELAY_MS, 10);
}
