//! Reachability probe results: HTTP status classification and the record
//! handed back for every probe of one nameserver. A probe never throws to
//! its caller: whichever step fails, exactly one record is produced, and
//! the record is usable exactly when the response status was 2xx.

use crate::text::dec_str;
use crate::text::u64_to_string;
use crate::url_norm::{
    canonical_url_text, ensure_https, ensure_https_url, https_candidate, url_parse_of, UrlParts,
};
use vstd::prelude::*;
use vstd::string::StringExecFns;

verus! {

/// Timeout of the reachability HTTP request, in seconds, independent of
/// the resolution timeout.
pub const HTTP_REQUEST_TIMEOUT_SECS: u64 = 10;

/// Outcome of the HTTP phase of a reachability probe.
#[derive(Debug, Clone)]
pub enum HttpStatus {
    /// A response with a 2xx status was obtained.
    Success,
    /// A response with status 403 was obtained; distinguished because it
    /// commonly indicates a censoring middlebox rather than a DNS failure.
    Forbidden403,
    /// A response with any other status was obtained.
    Other(u16),
    /// No HTTP response was obtained; the payload names the cause.
    Failed(String),
    /// Initial state: never returned by a completed probe.
    NotTested,
}

/// Classifies an HTTP status code: 2xx is success, 403 is singled out,
/// everything else keeps its code.
pub fn classify_http_status(code: u16) -> (r: HttpStatus)
    ensures
        200 <= code < 300 ==> r is Success,
        code == 403 ==> r is Forbidden403,
        !(200 <= code < 300) && code != 403 ==> (r matches HttpStatus::Other(c) && c == code),
        (r is Success) == (200 <= code < 300),
{
    if 200 <= code && code < 300 {
        HttpStatus::Success
    } else if code == 403 {
        HttpStatus::Forbidden403
    } else {
        HttpStatus::Other(code)
    }
}

/// The result record of one reachability probe of one nameserver.
#[derive(Debug, Clone)]
pub struct DnsTestResult {
    /// The nameserver under test.
    pub dns_server: String,
    /// Whether the probe found the domain usable: true exactly when the
    /// HTTP outcome was a 2xx success.
    pub status: bool,
    /// Wall-clock time of the whole probe, in milliseconds.
    pub response_time: Option<u64>,
    /// A human-readable cause on any non-usable outcome.
    pub error_message: Option<String>,
    /// The caller's batch tag, carried through unchanged.
    pub session_id: u64,
    /// The classified HTTP outcome.
    pub http_status: HttpStatus,
    /// The URL the probe tested.
    pub test_url: Option<String>,
}

/// The record for an input whose URL normalization failed: the probe is
/// over before any network work, and the domain is reported unusable.
pub fn invalid_domain_result(
    dns_server: String,
    test_url: String,
    elapsed_ms: u64,
    session_id: u64,
) -> (r: DnsTestResult)
    ensures
        r.dns_server == dns_server,
        r.status == false,
        r.response_time == Some(elapsed_ms),
        (r.error_message matches Some(m) && m@ == "Invalid domain format"@),
        r.session_id == session_id,
        (r.http_status matches HttpStatus::Failed(c) && c@ == "Invalid domain"@),
        (r.test_url matches Some(u) && u == test_url),
{
    DnsTestResult {
        dns_server,
        status: false,
        response_time: Some(elapsed_ms),
        error_message: Some(String::from_str("Invalid domain format")),
        session_id,
        http_status: HttpStatus::Failed(String::from_str("Invalid domain")),
        test_url: Some(test_url),
    }
}

/// The course a reachability probe takes after looking at the domain
/// alone.
pub enum ReachabilityPlan {
    /// The probe is already over, with its one record; no network work
    /// follows.
    Finished(DnsTestResult),
    /// The probe goes on against this URL; the second field is the
    /// canonical URL text the record will name.
    Probe(UrlParts, String),
}

/// Decides a probe's course from the domain alone. An input that fails
/// URL normalization finishes at once with the invalid-domain record — no
/// network work is owed for it — while a normalizable input yields the
/// parsed URL to probe.
pub fn plan_reachability(domain: &str, dns_server: String, elapsed_ms: u64, session_id: u64) -> (r:
    ReachabilityPlan)
    ensures
        url_parse_of(https_candidate(domain@)) is None ==> (r matches ReachabilityPlan::Finished(
            rec,
        ) && rec.dns_server == dns_server && rec.status == false && rec.response_time == Some(
            elapsed_ms,
        ) && (rec.error_message matches Some(m) && m@ == "Invalid domain format"@) && (
        rec.http_status matches HttpStatus::Failed(c) && c@ == "Invalid domain"@)
            && rec.session_id == session_id && (rec.test_url matches Some(u) && u@
            == canonical_url_text(domain@))),
        url_parse_of(https_candidate(domain@)) matches Some(m) ==> (r matches
            ReachabilityPlan::Probe(p, u) && p.scheme@ == m.0 && p.host@ == m.1 && p.serialized@
            == m.2 && u@ == canonical_url_text(domain@)),
{
    let url_string = ensure_https(domain);
    match ensure_https_url(domain) {
        Some(parts) => ReachabilityPlan::Probe(parts, url_string),
        None => ReachabilityPlan::Finished(
            invalid_domain_result(dns_server, url_string, elapsed_ms, session_id),
        ),
    }
}

/// The record for a probe whose resolution or request obtained no HTTP
/// response at all.
pub fn connection_failed_result(
    dns_server: String,
    test_url: String,
    elapsed_ms: u64,
    session_id: u64,
) -> (r: DnsTestResult)
    ensures
        r.dns_server == dns_server,
        r.status == false,
        r.response_time == Some(elapsed_ms),
        (r.error_message matches Some(m) && m@ == "DNS resolution or HTTP request failed"@),
        r.session_id == session_id,
        (r.http_status matches HttpStatus::Failed(c) && c@ == "Connection failed"@),
        (r.test_url matches Some(u) && u == test_url),
{
    DnsTestResult {
        dns_server,
        status: false,
        response_time: Some(elapsed_ms),
        error_message: Some(String::from_str("DNS resolution or HTTP request failed")),
        session_id,
        http_status: HttpStatus::Failed(String::from_str("Connection failed")),
        test_url: Some(test_url),
    }
}

/// The record for a probe that obtained an HTTP response: the status code
/// is classified, and a non-usable outcome carries `HTTP <code> - <reason>`
/// as its error.
pub fn http_response_result(
    dns_server: String,
    test_url: String,
    code: u16,
    status_msg: String,
    elapsed_ms: u64,
    session_id: u64,
) -> (r: DnsTestResult)
    ensures
        r.dns_server == dns_server,
        r.status == (200 <= code < 300),
        r.status == (r.http_status is Success),
        code == 403 ==> r.http_status is Forbidden403,
        !(200 <= code < 300) && code != 403 ==> (r.http_status matches HttpStatus::Other(c) && c
            == code),
        r.response_time == Some(elapsed_ms),
        r.status ==> r.error_message is None,
        !r.status ==> (r.error_message matches Some(m) && m@ == "HTTP "@ + dec_str(code as nat)
            + " - "@ + status_msg@),
        r.session_id == session_id,
        (r.test_url matches Some(u) && u == test_url),
{
    let usable = 200 <= code && code < 300;
    let http_status = classify_http_status(code);
    let error_message = if usable {
        None
    } else {
        let mut m = String::from_str("HTTP ");
        m.append(u64_to_string(code as u64).as_str());
        m.append(" - ");
        m.append(status_msg.as_str());
        proof {
            assert((code as u64) as nat == code as nat);
        }
        Some(m)
    };
    DnsTestResult {
        dns_server,
        status: usable,
        response_time: Some(elapsed_ms),
        error_message,
        session_id,
        http_status,
        test_url: Some(test_url),
    }
}

} // verus!
