//! Speed probe results and the deadline arithmetic of a download test.
//!
//! One overall budget covers resolution, connection and streaming
//! together: each phase runs under the remaining budget, not a fresh one.
//! A transfer stopped by the deadline is a partial result, not a failure:
//! whatever was downloaded counts toward throughput. Only pre-transfer
//! failures — parsing, resolution, connection, a bad status — mark the
//! record unsuccessful.

use crate::text::dec_str;
use crate::text::u64_to_string;
use vstd::math::min;
use vstd::prelude::*;
use vstd::string::StringExecFns;

verus! {

/// The pause before a speed probe begins, in milliseconds: a cooperative
/// point where a caller that has already decided to cancel can do so
/// before any network work.
pub const CANCEL_DELAY_MS: u64 = 10;

/// The result record of one download speed probe of one nameserver.
///
/// Throughput is carried in bits per second; a presentation layer that
/// wants megabits per second divides by one million.
#[derive(Debug, Clone)]
pub struct DownloadSpeedResult {
    /// The nameserver under test.
    pub dns_server: String,
    /// The URL that was downloaded.
    pub url: String,
    /// Whether streaming started and produced a measurement; deadline
    /// truncation still counts as success.
    pub success: bool,
    /// Measured throughput in bits per second; zero on failure.
    pub download_speed_bps: u64,
    /// Bytes received before completion or the deadline.
    pub downloaded_bytes: u64,
    /// Overall wall-clock duration of the probe, in milliseconds.
    pub test_duration_ms: u64,
    /// A human-readable cause on failure.
    pub error_message: Option<String>,
    /// Wall-clock time of the resolution phase, unset when resolution
    /// never completed.
    pub resolution_time_ms: Option<u64>,
    /// The caller's batch tag, carried through unchanged.
    pub session_id: u64,
}

/// Throughput of a transfer in bits per second: eight bits per byte over
/// the elapsed wall-clock milliseconds. A zero elapsed time yields zero,
/// and a result beyond the type saturates.
pub fn throughput_bits_per_second(bytes: u64, elapsed_ms: u64) -> (r: u64)
    ensures
        elapsed_ms == 0 ==> r == 0,
        elapsed_ms > 0 ==> r as int == min(
            (bytes as int) * 8000 / (elapsed_ms as int),
            u64::MAX as int,
        ),
{
    if elapsed_ms == 0 {
        return 0;
    }
    let bits_per_sec_scaled: u128 = (bytes as u128) * 8000;
    let q: u128 = bits_per_sec_scaled / (elapsed_ms as u128);
    if q > (u64::MAX as u128) {
        u64::MAX
    } else {
        q as u64
    }
}

/// The budget left of `total_ms` after `elapsed_ms` has passed; an
/// exhausted budget leaves zero.
pub fn remaining_budget_ms(total_ms: u64, elapsed_ms: u64) -> (r: u64)
    ensures
        elapsed_ms >= total_ms ==> r == 0,
        elapsed_ms < total_ms ==> r == total_ms - elapsed_ms,
{
    if elapsed_ms >= total_ms {
        0
    } else {
        total_ms - elapsed_ms
    }
}

/// Whether the overall budget has been reached: the streaming loop stops
/// consuming at this point, keeping what it has as a partial result.
pub fn budget_exhausted(total_ms: u64, elapsed_ms: u64) -> (r: bool)
    ensures
        r == (elapsed_ms >= total_ms),
{
    elapsed_ms >= total_ms
}

/// Whether the consumption loop should hand control back to the caller's
/// cancellation check: at each whole mebibyte received, or once the
/// transfer has run for two whole seconds.
pub fn should_yield(downloaded_bytes: u64, download_elapsed_ms: u64) -> (r: bool)
    ensures
        r == (downloaded_bytes % 1048576 == 0 || download_elapsed_ms >= 2000),
{
    downloaded_bytes % (1024 * 1024) == 0 || download_elapsed_ms / 1000 > 1
}

/// The failure message when resolution did not finish inside the budget.
pub fn resolution_timeout_message(timeout_seconds: u64) -> (r: String)
    ensures
        r@ == "DNS resolution timed out after "@ + dec_str(timeout_seconds as nat) + " seconds"@,
{
    let mut m = String::from_str("DNS resolution timed out after ");
    m.append(u64_to_string(timeout_seconds).as_str());
    m.append(" seconds");
    m
}

/// The failure message when resolution failed for another reason.
pub fn resolution_failed_message(detail: &str) -> (r: String)
    ensures
        r@ == "DNS resolution failed: "@ + detail@,
{
    let mut m = String::from_str("DNS resolution failed: ");
    m.append(detail);
    m
}

/// The failure message when the budget ran out during resolution.
pub fn timed_out_during_resolution_message() -> (r: String)
    ensures
        r@ == "Operation timed out during DNS resolution"@,
{
    String::from_str("Operation timed out during DNS resolution")
}

/// The failure message when the budget ran out before the request.
pub fn timed_out_before_request_message() -> (r: String)
    ensures
        r@ == "Operation timed out before HTTP request"@,
{
    String::from_str("Operation timed out before HTTP request")
}

/// The failure message for a URL scheme the probe does not speak.
pub fn unsupported_scheme_message() -> (r: String)
    ensures
        r@ == "Unsupported scheme"@,
{
    String::from_str("Unsupported scheme")
}

/// Decides whether a response may be streamed: only a 2xx status begins
/// the transfer; any other status is a pre-transfer failure, and the
/// returned message names its code.
pub fn begin_streaming(code: u16) -> (r: Option<String>)
    ensures
        (r is None) == (200 <= code < 300),
        !(200 <= code < 300) ==> (r matches Some(m) && m@ == "HTTP request failed: status "@
            + dec_str(code as nat)),
{
    if 200 <= code && code < 300 {
        None
    } else {
        let mut m = String::from_str("HTTP request failed: status ");
        m.append(u64_to_string(code as u64).as_str());
        proof {
            assert((code as u64) as nat == code as nat);
        }
        Some(m)
    }
}

/// The failure message when the request obtained no response.
pub fn http_request_failed_message(detail: &str) -> (r: String)
    ensures
        r@ == "HTTP request failed: "@ + detail@,
{
    let mut m = String::from_str("HTTP request failed: ");
    m.append(detail);
    m
}

/// The failure message when the response stream broke off.
pub fn stream_error_message(detail: &str) -> (r: String)
    ensures
        r@ == "Stream error: "@ + detail@,
{
    let mut m = String::from_str("Stream error: ");
    m.append(detail);
    m
}

/// The record for a probe that failed before streaming began: no bytes,
/// no throughput, no duration, only the cause.
pub fn speed_failure_result(url: String, dns_server: String, error: String, session_id: u64) -> (r:
    DownloadSpeedResult)
    ensures
        r.dns_server == dns_server,
        r.url == url,
        r.success == false,
        r.download_speed_bps == 0,
        r.downloaded_bytes == 0,
        r.test_duration_ms == 0,
        (r.error_message matches Some(m) && m == error),
        r.resolution_time_ms is None,
        r.session_id == session_id,
{
    DownloadSpeedResult {
        dns_server,
        url,
        success: false,
        download_speed_bps: 0,
        downloaded_bytes: 0,
        test_duration_ms: 0,
        error_message: Some(error),
        resolution_time_ms: None,
        session_id,
    }
}

/// The record when resolution alone exhausted the supplied budget: the
/// probe failed, the error names the resolution timeout, and the
/// resolution time stays unset.
pub fn resolution_timed_out_result(
    url: String,
    dns_server: String,
    timeout_seconds: u64,
    session_id: u64,
) -> (r: DownloadSpeedResult)
    ensures
        r.dns_server == dns_server,
        r.url == url,
        r.success == false,
        r.download_speed_bps == 0,
        r.downloaded_bytes == 0,
        r.test_duration_ms == 0,
        (r.error_message matches Some(m) && m@ == "DNS resolution timed out after "@ + dec_str(
            timeout_seconds as nat,
        ) + " seconds"@),
        r.resolution_time_ms is None,
        r.session_id == session_id,
{
    let msg = resolution_timeout_message(timeout_seconds);
    speed_failure_result(url, dns_server, msg, session_id)
}

/// The record for a measured transfer, complete or deadline-truncated:
/// throughput is computed from the bytes received and the overall
/// elapsed time.
pub fn speed_success_result(
    url: String,
    dns_server: String,
    downloaded_bytes: u64,
    overall_elapsed_ms: u64,
    resolution_ms: u64,
    session_id: u64,
) -> (r: DownloadSpeedResult)
    ensures
        r.dns_server == dns_server,
        r.url == url,
        r.success == true,
        r.downloaded_bytes == downloaded_bytes,
        r.test_duration_ms == overall_elapsed_ms,
        overall_elapsed_ms == 0 ==> r.download_speed_bps == 0,
        overall_elapsed_ms > 0 ==> r.download_speed_bps as int == min(
            (downloaded_bytes as int) * 8000 / (overall_elapsed_ms as int),
            u64::MAX as int,
        ),
        r.error_message is None,
        (r.resolution_time_ms matches Some(m) && m == resolution_ms),
        r.session_id == session_id,
{
    let bps = throughput_bits_per_second(downloaded_bytes, overall_elapsed_ms);
    DownloadSpeedResult {
        dns_server,
        url,
        success: true,
        download_speed_bps: bps,
        downloaded_bytes,
        test_duration_ms: overall_elapsed_ms,
        error_message: None,
        resolution_time_ms: Some(resolution_ms),
        session_id,
    }
}

} // verus!
