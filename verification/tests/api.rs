use guardia::api::{
    server_entry, service_entry, PollingStatus,
    authorize, handle_http_error, latest_query_limit, metrics_query_limit, query_time_range,
    servers_response, strip_prefix, ApiError, AuthError, HttpFailure, PollingStatusStore,
    ServerInfo,
};
use guardia::health::{
    determine_server_health_at, determine_service_health_at, is_metrics_stale,
    is_metrics_stale_at, is_polling_stale_at, is_server_down, is_server_down_at,
};
use guardia::naming::{build_monitoring_url, server_display, server_id};
use guardia::status::{MonitoringStatus, ServerHealthStatus, ServiceHealthStatus, ServiceStatus};
use guardia::storage::StorageError;

const NOW: i64 = 1_700_000_000_000;
const SEC: i64 = 1000;

#[test]
fn test_api_with_valid_token_succeeds() {
    assert_eq!(authorize(Some("Bearer test-token"), "test-token"), Ok(()));
}

#[test]
fn test_api_with_invalid_token_fails_403() {
    let err = authorize(Some("Bearer wrong-token"), "test-token").unwrap_err();
    assert_eq!(err, AuthError::InvalidToken);
    assert_eq!(err.status_and_message(), (403, "Invalid token"));
}

#[test]
fn test_api_without_token_when_required_fails_401() {
    let err = authorize(None, "test-token").unwrap_err();
    assert_eq!(err, AuthError::MissingToken);
    assert_eq!(err.status_and_message(), (401, "Missing Authorization header"));
}

#[test]
fn malformed_authorization_header_is_401() {
    let err = authorize(Some("Basic dXNlcjpwYXNz"), "test-token").unwrap_err();
    assert_eq!(err, AuthError::InvalidFormat);
    assert_eq!(
        err.status_and_message(),
        (401, "Invalid Authorization format (expected: Bearer <token>)")
    );
    // the scheme is case sensitive and the token must match exactly
    assert_eq!(authorize(Some("bearer test-token"), "test-token"), Err(AuthError::InvalidFormat));
    assert_eq!(authorize(Some("Bearer test-token "), "test-token"), Err(AuthError::InvalidToken));
    assert_eq!(authorize(Some("Bearer "), ""), Ok(()));
}

#[test]
fn prefix_stripping() {
    assert_eq!(strip_prefix("Bearer abc", "Bearer "), Some("abc".to_string()));
    assert_eq!(strip_prefix("Bear", "Bearer "), None);
    assert_eq!(strip_prefix("héllo", "hé"), Some("llo".to_string()));
    assert_eq!(strip_prefix("abc", ""), Some("abc".to_string()));
}

#[test]
fn query_limits_default_and_cap() {
    assert_eq!(metrics_query_limit(None), 1000);
    assert_eq!(metrics_query_limit(Some(5)), 5);
    assert_eq!(metrics_query_limit(Some(50_000)), 10_000);
    assert_eq!(latest_query_limit(None), 100);
    assert_eq!(latest_query_limit(Some(7)), 7);
    assert_eq!(latest_query_limit(Some(1001)), 1000);
}

#[test]
fn query_range_defaults_to_last_day() {
    assert_eq!(query_time_range(None, None, NOW, 24), (NOW - 24 * 3600 * SEC, NOW));
    assert_eq!(query_time_range(Some(5), None, NOW, 24), (5, NOW));
    assert_eq!(query_time_range(None, Some(NOW - 10), NOW, 1), (NOW - 10 - 3600 * SEC, NOW - 10));
}

#[test]
fn api_error_status_codes() {
    assert_eq!(ApiError::StorageError("db".to_string()).into_status_and_message(), (500, "db".to_string()));
    assert_eq!(ApiError::InvalidRequest("bad".to_string()).into_status_and_message(), (400, "bad".to_string()));
    assert_eq!(ApiError::NotFound("none".to_string()).into_status_and_message(), (404, "none".to_string()));
    assert_eq!(ApiError::Internal("oops".to_string()).into_status_and_message(), (500, "oops".to_string()));
    let e = ApiError::from_storage_error(&StorageError::QueryFailed("no table".to_string()));
    assert_eq!(e.into_status_and_message(), (500, "storage query failed: no table".to_string()));
}

#[test]
fn http_failure_messages() {
    assert_eq!(handle_http_error(HttpFailure::Timeout, "x"), "Request timeout");
    assert_eq!(handle_http_error(HttpFailure::Connect, "x"), "Connection failed");
    assert_eq!(handle_http_error(HttpFailure::Request, "bad url"), "HTTP request failed: bad url");
    assert_eq!(handle_http_error(HttpFailure::Other, "eof"), "Unexpected error: eof");
}

#[test]
fn server_list_counts_its_entries() {
    let info = ServerInfo {
        server_id: "192.168.1.100:3000".to_string(),
        display_name: "Test Server".to_string(),
        monitoring_status: MonitoringStatus::Active.as_str().to_string(),
        health_status: ServerHealthStatus::Unknown.as_str().to_string(),
        last_seen: None,
    };
    let r = servers_response(vec![info]);
    assert_eq!(r.count, 1);
    assert_eq!(r.servers[0].server_id, "192.168.1.100:3000");
    assert_eq!(r.servers[0].monitoring_status, "active");
    assert_eq!(r.servers[0].health_status, "unknown");
}

#[test]
fn polling_outcomes_per_server() {
    let mut store = PollingStatusStore::new();
    let p = store.get_status("a:1");
    assert!(p.last_success.is_none() && p.last_error.is_none());

    store.update_status("a:1", false, Some("Connection failed".to_string()), NOW, "t0".to_string());
    let p = store.get_status("a:1");
    assert_eq!(p.last_error, Some("Connection failed".to_string()));
    assert_eq!(p.last_error_timestamp, Some(NOW));
    assert!(p.last_success.is_none());

    store.update_status("a:1", true, None, NOW + SEC, "t1".to_string());
    let p = store.get_status("a:1");
    assert_eq!(p.last_success, Some("t1".to_string()));
    assert_eq!(p.last_success_timestamp, Some(NOW + SEC));
    assert!(p.last_error.is_none());
    assert!(p.last_error_timestamp.is_none());

    store.update_status("a:1", false, Some("Request timeout".to_string()), NOW + 2 * SEC, "t2".to_string());
    let p = store.get_status("a:1");
    assert_eq!(p.last_success, Some("t1".to_string()));
    assert_eq!(p.last_error, Some("Request timeout".to_string()));

    assert!(store.get_status("b:2").last_success.is_none());
}

#[test]
fn staleness_thresholds() {
    assert!(!is_metrics_stale_at(NOW - 300 * SEC, NOW));
    // 300.999 seconds is still 300 whole seconds
    assert!(!is_metrics_stale_at(NOW - 300 * SEC - 999, NOW));
    assert!(is_metrics_stale_at(NOW - 301 * SEC, NOW));
    assert!(is_polling_stale_at(NOW - 600 * SEC, NOW));
    assert!(!is_metrics_stale_at(NOW + 60 * SEC, NOW));
    // ten years old is stale whatever the clock says now
    assert!(is_metrics_stale(0));
}

#[test]
fn server_down_after_recent_failure() {
    assert!(is_server_down_at(Some(NOW - 119 * SEC), NOW));
    assert!(is_server_down_at(Some(NOW - 120 * SEC + 1), NOW));
    assert!(!is_server_down_at(Some(NOW - 120 * SEC), NOW));
    assert!(!is_server_down_at(None, NOW));
    assert!(!is_server_down(None));
}

#[test]
fn test_list_servers_with_no_metrics_shows_unknown() {
    assert_eq!(determine_server_health_at(None, None, None, NOW), ServerHealthStatus::Unknown);
}

#[test]
fn test_list_servers_with_recent_metrics_shows_up() {
    assert_eq!(determine_server_health_at(Some(NOW - 10 * SEC), None, None, NOW), ServerHealthStatus::Up);
    assert_eq!(
        determine_server_health_at(Some(NOW - 10 * SEC), Some(NOW - 5 * SEC), None, NOW),
        ServerHealthStatus::Up
    );
}

#[test]
fn test_list_servers_with_stale_metrics_shows_stale() {
    assert_eq!(determine_server_health_at(Some(NOW - 600 * SEC), None, None, NOW), ServerHealthStatus::Stale);
    assert_eq!(
        determine_server_health_at(Some(NOW - 600 * SEC), Some(NOW - 5 * SEC), None, NOW),
        ServerHealthStatus::Stale
    );
}

#[test]
fn server_health_cases() {
    // a recent polling failure wins
    assert_eq!(
        determine_server_health_at(Some(NOW), Some(NOW), Some(NOW - 30 * SEC), NOW),
        ServerHealthStatus::Down
    );
    // an old failure does not
    assert_eq!(
        determine_server_health_at(Some(NOW), None, Some(NOW - 600 * SEC), NOW),
        ServerHealthStatus::Up
    );
    // recent successful polling without metrics
    assert_eq!(determine_server_health_at(None, Some(NOW - 5 * SEC), None, NOW), ServerHealthStatus::Up);
    // old polling success, no metrics
    assert_eq!(determine_server_health_at(None, Some(NOW - 900 * SEC), None, NOW), ServerHealthStatus::Unknown);
}

#[test]
fn test_list_services_with_recent_up_check_shows_up() {
    assert_eq!(determine_service_health_at(ServiceStatus::Up, NOW - 10 * SEC, NOW), ServiceHealthStatus::Up);
    assert_eq!(determine_service_health_at(ServiceStatus::Down, NOW - 10 * SEC, NOW), ServiceHealthStatus::Down);
    assert_eq!(
        determine_service_health_at(ServiceStatus::Degraded, NOW - 10 * SEC, NOW),
        ServiceHealthStatus::Degraded
    );
    assert_eq!(determine_service_health_at(ServiceStatus::Up, NOW - 900 * SEC, NOW), ServiceHealthStatus::Stale);
    assert_eq!(ServiceHealthStatus::Stale.as_str(), "stale");
}

#[test]
fn server_identifiers_and_urls() {
    assert_eq!(server_id("192.168.1.100", 3000), "192.168.1.100:3000");
    assert_eq!(server_id("127.0.0.1", 0), "127.0.0.1:0");
    assert_eq!(server_id("10.0.0.1", 65535), "10.0.0.1:65535");
    assert_eq!(server_display(&None, "127.0.0.1", 3000), "127.0.0.1:3000");
    assert_eq!(server_display(&Some("Web".to_string()), "127.0.0.1", 3000), "Web");
    assert_eq!(build_monitoring_url("127.0.0.1", 51243, "/metrics"), "http://127.0.0.1:51243/metrics");
}

#[test]
fn list_entries_for_servers_and_services() {
    let polling = PollingStatus::default();
    let info = server_entry("192.168.1.100:3000".to_string(), "Test Server".to_string(), None, &polling, NOW);
    assert_eq!(info.server_id, "192.168.1.100:3000");
    assert_eq!(info.display_name, "Test Server");
    assert_eq!(info.monitoring_status, "active");
    assert_eq!(info.health_status, "unknown");
    assert!(info.last_seen.is_none());

    let info = server_entry(
        "a:1".to_string(),
        "A".to_string(),
        Some((NOW - 10 * SEC, "t".to_string())),
        &polling,
        NOW,
    );
    assert_eq!(info.health_status, "up");
    assert_eq!(info.last_seen.as_deref(), Some("t"));

    let stale = server_entry("a:1".to_string(), "A".to_string(), Some((NOW - 900 * SEC, "t".to_string())), &polling, NOW);
    assert_eq!(stale.health_status, "stale");

    let s = service_entry("Test Service".to_string(), "http://example.com".to_string(), None, NOW);
    assert_eq!(s.health_status, "unknown");
    assert!(s.last_check.is_none() && s.last_status.is_none());
    let s = service_entry(
        "Test Service".to_string(),
        "http://example.com".to_string(),
        Some((ServiceStatus::Up, NOW - 10 * SEC, "t".to_string())),
        NOW,
    );
    assert_eq!(s.health_status, "up");
    assert_eq!(s.last_status.as_deref(), Some("up"));
    assert_eq!(s.last_check.as_deref(), Some("t"));
    let s = service_entry(
        "x".to_string(),
        "u".to_string(),
        Some((ServiceStatus::Down, NOW - 900 * SEC, "t".to_string())),
        NOW,
    );
    assert_eq!(s.health_status, "stale");
    assert_eq!(s.last_status.as_deref(), Some("down"));
}
