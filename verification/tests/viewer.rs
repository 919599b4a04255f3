use guardia::api::ServerInfo;
use guardia::status::ServiceStatus;
use guardia::viewer::{
    default_max_metrics, default_refresh_interval, default_time_window, AlertEntry,
    AlertSeverity, AppState, Config, KeyOutcome, Tab, ViewerKey, WsEvent, MAX_ALERTS_BUFFER,
    MAX_METRICS_BUFFER,
};
use guardia::websocket::{connection_headers, headers_from_parts, origin, origin_scheme, UriProblem, WebSocketClient};

const NOW: i64 = 1_700_000_000_000;

fn server(id: &str) -> ServerInfo {
    ServerInfo {
        server_id: id.to_string(),
        display_name: id.to_string(),
        monitoring_status: "active".to_string(),
        health_status: "up".to_string(),
        last_seen: None,
    }
}

fn metric(id: &str, timestamp: i64, value: u32) -> WsEvent<u32> {
    WsEvent::Metric { server_id: id.to_string(), display_name: id.to_string(), timestamp, metrics: value }
}

fn check(name: &str, status: ServiceStatus, error: Option<&str>) -> WsEvent<u32> {
    WsEvent::ServiceCheck {
        service_name: name.to_string(),
        url: "ws://x/api/v1/stream".to_string(),
        timestamp: NOW,
        status,
        response_time_ms: None,
        http_status_code: None,
        ssl_expiry_days: None,
        error_message: error.map(|e| e.to_string()),
    }
}

#[test]
fn tabs_cycle() {
    assert_eq!(Tab::Servers.next(), Tab::Services);
    assert_eq!(Tab::Services.next(), Tab::Alerts);
    assert_eq!(Tab::Alerts.next(), Tab::Servers);
    assert_eq!(Tab::Servers.previous(), Tab::Alerts);
    assert_eq!(Tab::Alerts.previous(), Tab::Services);
    for t in [Tab::Servers, Tab::Services, Tab::Alerts] {
        assert_eq!(t.next().previous(), t);
        assert_eq!(t.next().next().next(), t);
    }
    assert_eq!(Tab::Servers.title(), "Servers");
    assert_eq!(Tab::Services.title(), "Services");
    assert_eq!(Tab::Alerts.title(), "Alerts");
}

#[test]
fn viewer_defaults() {
    assert_eq!(default_refresh_interval(), 5);
    assert_eq!(default_max_metrics(), 100);
    assert_eq!(default_time_window(), 300);
    let c = Config::default();
    assert_eq!(c.api_url, "http://localhost:8080");
    assert!(c.api_token.is_none());
    assert_eq!(c.time_window_seconds, 300);
    assert!(!c.debug);
    let s: AppState<u32> = AppState::new(300);
    assert_eq!(s.current_tab, Tab::Servers);
    assert!(!s.connected && !s.paused);
    assert_eq!(s.data_limit, 100);
}

#[test]
fn selection_wraps_and_round_trips() {
    let mut s: AppState<u32> = AppState::new(300);
    s.select_next();
    assert_eq!(s.selected_server, 0);
    s.update_servers(vec![server("a:1"), server("b:2"), server("c:3")]);
    s.select_next();
    s.select_next();
    assert_eq!(s.selected_server, 2);
    s.select_next();
    assert_eq!(s.selected_server, 0);
    s.select_previous();
    assert_eq!(s.selected_server, 2);
    assert_eq!(s.get_selected_server().unwrap().server_id, "c:3");
    // shrinking the list moves the selection to its last item
    s.update_servers(vec![server("a:1")]);
    assert_eq!(s.selected_server, 0);
    s.update_servers(vec![]);
    assert!(s.get_selected_server().is_none());
}

#[test]
fn keys_drive_the_state() {
    let mut s: AppState<u32> = AppState::new(300);
    s.update_servers(vec![server("a:1"), server("b:2")]);
    assert_eq!(s.handle_key(ViewerKey::Down), KeyOutcome::Continue);
    assert_eq!(s.selected_server, 1);
    assert_eq!(s.handle_key(ViewerKey::Up), KeyOutcome::Continue);
    assert_eq!(s.selected_server, 0);
    assert_eq!(s.handle_key(ViewerKey::NextTab), KeyOutcome::Continue);
    assert_eq!(s.current_tab, Tab::Services);
    assert_eq!(s.handle_key(ViewerKey::Down), KeyOutcome::Continue);
    assert_eq!(s.selected_server, 0);
    assert_eq!(s.handle_key(ViewerKey::PreviousTab), KeyOutcome::Continue);
    assert_eq!(s.current_tab, Tab::Servers);
    assert_eq!(s.handle_key(ViewerKey::TogglePause), KeyOutcome::Continue);
    assert!(s.paused);
    assert_eq!(s.handle_key(ViewerKey::Refresh), KeyOutcome::Refresh);
    assert_eq!(s.handle_key(ViewerKey::Quit), KeyOutcome::Quit);
    s.error_message = Some("boom".to_string());
    assert_eq!(s.handle_key(ViewerKey::ClearError), KeyOutcome::Continue);
    assert!(s.error_message.is_none());
    assert_eq!(s.handle_key(ViewerKey::Other), KeyOutcome::Continue);
}

#[test]
fn metrics_build_history_and_mark_connected() {
    let mut s: AppState<u32> = AppState::new(300);
    s.error_message = Some("old".to_string());
    s.handle_ws_event(metric("a:1", NOW - 1000, 7), NOW);
    assert!(s.connected);
    assert!(s.error_message.is_none());
    assert_eq!(s.last_update, Some(NOW));
    let h = s.get_metrics_history("a:1").unwrap();
    assert_eq!(h.len(), 1);
    assert_eq!(h[0].metrics, 7);
    assert!(s.get_metrics_history("b:2").is_none());

    // points older than twice the window are dropped from the front
    s.handle_ws_event(metric("a:1", NOW + 650_000, 8), NOW + 700_000);
    let h = s.get_metrics_history("a:1").unwrap();
    assert_eq!(h.len(), 1);
    assert_eq!(h[0].metrics, 8);
}

#[test]
fn history_is_bounded() {
    let mut s: AppState<u32> = AppState::new(1_000_000);
    for i in 0..(MAX_METRICS_BUFFER as i64 + 5) {
        s.add_metric("a:1".to_string(), i as u32, NOW + i, NOW + i);
    }
    let h = s.get_metrics_history("a:1").unwrap();
    assert_eq!(h.len(), MAX_METRICS_BUFFER);
    assert_eq!(h.back().unwrap().metrics, MAX_METRICS_BUFFER as u32 + 4);
    assert_eq!(h.front().unwrap().metrics, 5);
}

#[test]
fn alerts_are_bounded() {
    let mut s: AppState<u32> = AppState::new(300);
    for i in 0..(MAX_ALERTS_BUFFER + 3) {
        s.add_alert(AlertEntry {
            timestamp: i as i64,
            server_id: "a:1".to_string(),
            alert_type: "t".to_string(),
            message: "m".to_string(),
            severity: AlertSeverity::Info,
        });
    }
    assert_eq!(s.alerts.len(), MAX_ALERTS_BUFFER);
    assert_eq!(s.alerts.front().unwrap().timestamp, 3);
}

#[test]
fn connection_events() {
    let mut s: AppState<u32> = AppState::new(300);
    s.handle_ws_event(check("Connection", ServiceStatus::Up, None), NOW);
    assert!(s.connected);
    s.handle_ws_event(check("Connection", ServiceStatus::Down, Some("Connection closed by server")), NOW);
    assert!(!s.connected);
    assert_eq!(s.error_message.as_deref(), Some("Connection closed by server"));
    assert!(s.alerts.is_empty());
}

#[test]
fn failed_service_checks_enter_the_timeline() {
    let mut s: AppState<u32> = AppState::new(300);
    s.handle_ws_event(check("api", ServiceStatus::Up, None), NOW);
    assert!(s.alerts.is_empty());
    s.handle_ws_event(check("api", ServiceStatus::Down, None), NOW);
    let a = s.alerts.back().unwrap();
    assert_eq!(a.server_id, "api");
    assert_eq!(a.alert_type, "Service Down");
    assert_eq!(a.message, "Service check failed");
    assert_eq!(a.severity, AlertSeverity::Critical);
    s.handle_ws_event(check("api", ServiceStatus::Down, Some("HTTP 503")), NOW);
    assert_eq!(s.alerts.back().unwrap().message, "HTTP 503");
    assert_eq!(s.alerts.len(), 2);
}

#[test]
fn paused_viewer_ignores_events() {
    let mut s: AppState<u32> = AppState::new(300);
    s.toggle_pause();
    s.handle_ws_event(metric("a:1", NOW, 1), NOW);
    s.handle_ws_event(check("api", ServiceStatus::Down, None), NOW);
    assert!(s.get_metrics_history("a:1").is_none());
    assert!(s.alerts.is_empty());
    assert!(!s.connected);
}

#[test]
fn connection_timeout() {
    let mut s: AppState<u32> = AppState::new(300);
    s.handle_ws_event(metric("a:1", NOW, 1), NOW);
    s.check_connection_timeout(30, NOW + 30_999);
    assert!(s.connected);
    s.check_connection_timeout(30, NOW + 31_000);
    assert!(!s.connected);
    assert_eq!(s.error_message.as_deref(), Some("Connection timeout (no data for 30s)"));
}

#[test]
fn stream_urls() {
    let c = WebSocketClient::new("https://example.com", None);
    assert_eq!(c.url, "wss://example.com/api/v1/stream");
    assert_eq!(c.connect_url(), "wss://example.com/api/v1/stream");
    let c = WebSocketClient::new("http://localhost:8080", Some("tok".to_string()));
    assert_eq!(c.url, "ws://localhost:8080/api/v1/stream");
    assert_eq!(c.connect_url(), "ws://localhost:8080/api/v1/stream?token=tok");
    assert_eq!(origin_scheme("wss"), "https");
    assert_eq!(origin_scheme("ws"), "http");
    assert_eq!(origin("wss", "example.com"), "https://example.com");
}

#[test]
fn connection_headers_from_stream_url() {
    let client = WebSocketClient::new("https://hub.example.com:8443", Some("abc".to_string()));
    let (host, origin) = connection_headers(&client.connect_url()).unwrap();
    assert_eq!(host, "hub.example.com:8443");
    assert_eq!(origin, "https://hub.example.com:8443");
    let (host, origin) = connection_headers("ws://localhost:3000/api/v1/stream").unwrap();
    assert_eq!(host, "localhost:3000");
    assert_eq!(origin, "http://localhost:3000");
    assert_eq!(connection_headers("/api/v1/stream"), Err(UriProblem::MissingHost));
    assert_eq!(connection_headers("ws://bad host/"), Err(UriProblem::Invalid));
    assert_eq!(UriProblem::MissingScheme.message(), "WebSocket URL missing scheme");
}

#[test]
fn headers_from_uri_parts() {
    let parts = Ok(("example.org".to_string(), "wss".to_string()));
    assert_eq!(headers_from_parts(parts), Ok(("example.org".to_string(), "https://example.org".to_string())));
    let parts = Ok(("example.org:80".to_string(), "ws".to_string()));
    assert_eq!(headers_from_parts(parts), Ok(("example.org:80".to_string(), "http://example.org:80".to_string())));
    assert_eq!(headers_from_parts(Err(UriProblem::MissingScheme)), Err(UriProblem::MissingScheme));
}
