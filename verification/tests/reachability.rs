use bargozin::reachability::{
    classify_http_status, connection_failed_result, http_response_result, invalid_domain_result,
    plan_reachability, DnsTestResult, HttpStatus, ReachabilityPlan, HTTP_REQUEST_TIMEOUT_SECS,
};

#[test]
fn classify_200_is_success() {
    assert!(matches!(classify_http_status(200), HttpStatus::Success));
}

#[test]
fn classify_299_is_success() {
    assert!(matches!(classify_http_status(299), HttpStatus::Success));
}

#[test]
fn classify_403_is_forbidden() {
    assert!(matches!(classify_http_status(403), HttpStatus::Forbidden403));
}

#[test]
fn classify_404_is_other() {
    match classify_http_status(404) {
        HttpStatus::Other(code) => assert_eq!(code, 404),
        _ => panic!("404 must classify as Other"),
    }
}

#[test]
fn classify_500_is_other() {
    match classify_http_status(500) {
        HttpStatus::Other(code) => assert_eq!(code, 500),
        _ => panic!("500 must classify as Other"),
    }
}

#[test]
fn classify_199_and_300_are_other() {
    assert!(matches!(classify_http_status(199), HttpStatus::Other(199)));
    assert!(matches!(classify_http_status(300), HttpStatus::Other(300)));
}

#[test]
fn invalid_domain_record_fields() {
    let r: DnsTestResult = invalid_domain_result(
        "8.8.8.8".to_string(),
        "https://not a domain".to_string(),
        3,
        77,
    );
    assert_eq!(r.dns_server, "8.8.8.8");
    assert!(!r.status);
    assert_eq!(r.response_time, Some(3));
    assert_eq!(r.error_message.as_deref(), Some("Invalid domain format"));
    assert_eq!(r.session_id, 77);
    match &r.http_status {
        HttpStatus::Failed(cause) => assert_eq!(cause, "Invalid domain"),
        _ => panic!("invalid domain must report a Failed outcome"),
    }
    assert_eq!(r.test_url.as_deref(), Some("https://not a domain"));
}

#[test]
fn connection_failed_record_fields() {
    let r = connection_failed_result(
        "1.1.1.1".to_string(),
        "https://example.com/".to_string(),
        5120,
        9,
    );
    assert!(!r.status);
    assert_eq!(
        r.error_message.as_deref(),
        Some("DNS resolution or HTTP request failed")
    );
    match &r.http_status {
        HttpStatus::Failed(cause) => assert_eq!(cause, "Connection failed"),
        _ => panic!("no response must report a Failed outcome"),
    }
    assert_eq!(r.response_time, Some(5120));
    assert_eq!(r.session_id, 9);
}

#[test]
fn response_200_is_usable_without_error() {
    let r = http_response_result(
        "9.9.9.9".to_string(),
        "https://example.com/".to_string(),
        200,
        "OK".to_string(),
        42,
        1,
    );
    assert!(r.status);
    assert!(matches!(r.http_status, HttpStatus::Success));
    assert!(r.error_message.is_none());
    assert_eq!(r.response_time, Some(42));
    assert_eq!(r.session_id, 1);
}

#[test]
fn response_403_is_forbidden_with_message() {
    let r = http_response_result(
        "9.9.9.9".to_string(),
        "https://example.com/".to_string(),
        403,
        "Forbidden".to_string(),
        10,
        2,
    );
    assert!(!r.status);
    assert!(matches!(r.http_status, HttpStatus::Forbidden403));
    assert_eq!(r.error_message.as_deref(), Some("HTTP 403 - Forbidden"));
}

#[test]
fn response_404_keeps_code_and_reason() {
    let r = http_response_result(
        "8.8.4.4".to_string(),
        "https://example.com/".to_string(),
        404,
        "Not Found".to_string(),
        11,
        3,
    );
    assert!(!r.status);
    assert!(matches!(r.http_status, HttpStatus::Other(404)));
    assert_eq!(r.error_message.as_deref(), Some("HTTP 404 - Not Found"));
}

#[test]
fn usable_exactly_when_success() {
    for code in [200u16, 204, 299, 300, 199, 403, 404, 500] {
        let r = http_response_result(
            "8.8.8.8".to_string(),
            "https://example.com/".to_string(),
            code,
            "reason".to_string(),
            1,
            0,
        );
        assert_eq!(r.status, matches!(r.http_status, HttpStatus::Success));
        assert_eq!(r.status, (200..300).contains(&code));
    }
}

#[test]
fn plan_finishes_invalid_domain_without_probe() {
    match plan_reachability("exa mple.com", "8.8.8.8".to_string(), 1, 4) {
        ReachabilityPlan::Finished(rec) => {
            assert!(!rec.status);
            assert_eq!(rec.error_message.as_deref(), Some("Invalid domain format"));
            assert!(matches!(rec.http_status, HttpStatus::Failed(_)));
            assert_eq!(rec.session_id, 4);
        }
        ReachabilityPlan::Probe(_, _) => panic!("an unparseable domain must not be probed"),
    }
}

#[test]
fn plan_probes_normalizable_domain() {
    match plan_reachability("example.com", "8.8.8.8".to_string(), 0, 4) {
        ReachabilityPlan::Probe(parts, url_string) => {
            assert_eq!(parts.host, "example.com");
            assert_eq!(parts.scheme, "https");
            assert_eq!(url_string, "https://example.com/");
        }
        ReachabilityPlan::Finished(_) => panic!("a plain domain must be probed"),
    }
}

#[test]
fn http_request_timeout_policy() {
    assert_eq!(HTTP_REQUEST_TIMEOUT_SECS, 10);
}
