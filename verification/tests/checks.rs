use guardia::config::{HttpMethod, ResolvedServiceConfig};
use guardia::service_check::{check_error_message, evaluate_response, response_status, status_code_ok};
use guardia::status::ServiceStatus;
use guardia::text::{decimal_string, parse_unsigned_bounded, replace_all_str};
use guardia::util::{agent_allows, get_default_port, port_from_setting, DEFAULT_PORT};

fn service(expected_status: Option<Vec<u16>>, body_pattern: Option<&str>) -> ResolvedServiceConfig {
    ResolvedServiceConfig {
        name: "api-service".to_string(),
        url: "http://127.0.0.1/api".to_string(),
        interval: 60,
        timeout: 10,
        method: HttpMethod::Get,
        expected_status,
        body_pattern: body_pattern.map(|p| p.to_string()),
        grace: None,
        alert: None,
    }
}

#[test]
fn test_service_check_success() {
    let s = evaluate_response(&service(None, None), 200, "OK");
    assert_eq!(s, ServiceStatus::Up);
    assert_eq!(check_error_message(s, 200), None);
}

#[test]
fn test_service_check_failure() {
    let s = evaluate_response(&service(None, None), 500, "Internal Server Error");
    assert_eq!(s, ServiceStatus::Down);
    assert_eq!(check_error_message(s, 500), Some("Unexpected status code: 500".to_string()));
}

#[test]
fn test_service_check_body_pattern_match() {
    let s = evaluate_response(
        &service(None, Some("status\":\"healthy")),
        200,
        "{\"status\":\"healthy\",\"version\":\"1.0.0\"}",
    );
    assert_eq!(s, ServiceStatus::Up);
}

#[test]
fn test_service_check_body_pattern_mismatch() {
    let s = evaluate_response(
        &service(None, Some("status\":\"healthy")),
        200,
        "{\"status\":\"degraded\",\"version\":\"1.0.0\"}",
    );
    assert_eq!(s, ServiceStatus::Degraded);
    assert_eq!(check_error_message(s, 200), Some("Unexpected status code: 200".to_string()));
}

#[test]
fn test_service_check_post_method() {
    let s = evaluate_response(&service(Some(vec![200, 201]), None), 201, "Created");
    assert_eq!(s, ServiceStatus::Up);
}

#[test]
fn invalid_body_pattern_degrades() {
    assert_eq!(evaluate_response(&service(None, Some("(unclosed")), 200, "anything"), ServiceStatus::Degraded);
    // a refused status code wins over the pattern
    assert_eq!(evaluate_response(&service(None, Some("(unclosed")), 404, "anything"), ServiceStatus::Down);
}

#[test]
fn regex_patterns_are_regular_expressions() {
    assert_eq!(evaluate_response(&service(None, Some("^ok$")), 200, "ok"), ServiceStatus::Up);
    assert_eq!(evaluate_response(&service(None, Some("^ok$")), 200, "not ok"), ServiceStatus::Degraded);
    assert_eq!(evaluate_response(&service(None, Some("v[0-9]+")), 200, "build v42"), ServiceStatus::Up);
}

#[test]
fn status_codes() {
    assert!(status_code_ok(&None, 200));
    assert!(status_code_ok(&None, 299));
    assert!(!status_code_ok(&None, 300));
    assert!(!status_code_ok(&None, 199));
    assert!(status_code_ok(&Some(vec![301, 418]), 418));
    assert!(!status_code_ok(&Some(vec![301, 418]), 200));
    assert!(!status_code_ok(&Some(vec![]), 200));
    assert_eq!(response_status(false, Some(Some(true))), ServiceStatus::Down);
    assert_eq!(response_status(true, None), ServiceStatus::Up);
    assert_eq!(response_status(true, Some(Some(false))), ServiceStatus::Degraded);
    assert_eq!(response_status(true, Some(None)), ServiceStatus::Degraded);
}

#[test]
fn agent_port_setting() {
    assert_eq!(get_default_port(), 51243);
    assert_eq!(DEFAULT_PORT, 51243);
    assert_eq!(port_from_setting(None), 51243);
    assert_eq!(port_from_setting(Some("3000")), 3000);
    assert_eq!(port_from_setting(Some("+3000")), 3000);
    assert_eq!(port_from_setting(Some("0")), 0);
    assert_eq!(port_from_setting(Some("65535")), 65535);
    assert_eq!(port_from_setting(Some("65536")), 51243);
    assert_eq!(port_from_setting(Some("")), 51243);
    assert_eq!(port_from_setting(Some("30a")), 51243);
    assert_eq!(port_from_setting(Some(" 3000")), 51243);
    assert_eq!(port_from_setting(Some("-1")), 51243);
    // the same as Rust's own parsing
    for v in ["3000", "+1", "007", "99999", "", "+", "++1", "1_000"] {
        assert_eq!(port_from_setting(Some(v)), v.parse::<u16>().unwrap_or(51243), "{v}");
    }
}

#[test]
fn agent_secret() {
    assert!(agent_allows(None, None));
    assert!(agent_allows(None, Some("anything")));
    assert!(agent_allows(Some("s3cret"), Some("s3cret")));
    assert!(!agent_allows(Some("s3cret"), Some("S3cret")));
    assert!(!agent_allows(Some("s3cret"), None));
    assert!(!agent_allows(Some("s3cret"), Some("")));
}

#[test]
fn text_helpers() {
    assert_eq!(decimal_string(0), "0");
    assert_eq!(decimal_string(18446744073709551615), "18446744073709551615");
    assert_eq!(parse_unsigned_bounded("18446744073709551615", u64::MAX), Some(u64::MAX));
    assert_eq!(parse_unsigned_bounded("18446744073709551616", u64::MAX), None);
    assert_eq!(parse_unsigned_bounded("255", 255), Some(255));
    assert_eq!(parse_unsigned_bounded("256", 255), None);
    assert_eq!(replace_all_str("http://a http://b", "http://", "ws://"), "ws://a ws://b");
    assert_eq!(replace_all_str("aaa", "aa", "b"), "ba");
    assert_eq!(replace_all_str("abc", "x", "y"), "abc");
}
