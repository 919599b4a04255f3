use guardia::alert_engine::{
    should_send_service_alert, AlertAction, AlertActor, AlertReply, AlertRequest,
    MetricObservation, ServiceCheckObservation,
};
use guardia::config::{
    Alert, HttpMethod, ResolvedLimit, ResolvedLimits, ResolvedServerConfig, ResolvedServiceConfig,
    Webhook,
};
use guardia::evaluation::ResourceEvaluation;
use guardia::status::ServiceStatus;

const TEMP_LIMIT: f32 = 70.0;
const CPU_LIMIT: f32 = 80.0;

fn hook() -> Alert {
    Alert::Webhook(Webhook { url: "https://hooks.example/alert".to_string() })
}

fn create_test_server_config(ip: &str, port: u16) -> ResolvedServerConfig {
    ResolvedServerConfig {
        ip: ip.to_string(),
        display: Some(format!("Test {ip}:{port}")),
        port,
        interval: 5,
        token: None,
        limits: Some(ResolvedLimits {
            temperature: Some(ResolvedLimit { limit: 70, grace: Some(3), alert: Some(hook()) }),
            usage: Some(ResolvedLimit { limit: 80, grace: Some(5), alert: Some(hook()) }),
        }),
    }
}

/// What the hub observes of a metric event: each reading compared with the limit.
fn observe(server_id: &str, cpu_usage: f32, temperature: Option<f32>) -> MetricObservation {
    MetricObservation {
        server_id: server_id.to_string(),
        temperature_below_limit: temperature.map(|t| t < TEMP_LIMIT),
        usage_below_limit: cpu_usage < CPU_LIMIT,
    }
}

fn actor_with(configs: Vec<ResolvedServerConfig>) -> AlertActor {
    let mut actor = AlertActor::new();
    for c in configs {
        actor.register_server(c);
    }
    actor
}

#[test]
fn test_grace_period_temperature_increments_until_alert() {
    let server_id = "127.0.0.1:3000";
    let mut actor = actor_with(vec![create_test_server_config("127.0.0.1", 3000)]);

    for _ in 0..2 {
        let actions = actor.on_metric_event(&observe(server_id, 50.0, Some(65.0)));
        assert!(actions.is_empty());
    }
    let state = actor.get_alert_state(server_id, 0).unwrap();
    assert_eq!(state.temp_consecutive_exceeds, 0);

    for i in 1..=2 {
        let actions = actor.on_metric_event(&observe(server_id, 50.0, Some(75.0)));
        assert!(actions.is_empty());
        let state = actor.get_alert_state(server_id, 0).unwrap();
        assert_eq!(state.temp_consecutive_exceeds, i);
    }

    let actions = actor.on_metric_event(&observe(server_id, 50.0, Some(75.0)));
    let state = actor.get_alert_state(server_id, 0).unwrap();
    assert_eq!(state.temp_consecutive_exceeds, 3);
    // the third reading is still within the grace period of 3
    assert!(actions.is_empty());

    // the fourth exhausts it and raises the alert
    let actions = actor.on_metric_event(&observe(server_id, 50.0, Some(75.0)));
    assert_eq!(actions.len(), 1);
    match &actions[0] {
        AlertAction::Temperature { server_id: id, evaluation } => {
            assert_eq!(id, server_id);
            assert_eq!(*evaluation, ResourceEvaluation::StartsToExceed);
        }
        other => panic!("unexpected action {other:?}"),
    }
    assert_eq!(actor.get_alert_state(server_id, 0).unwrap().temp_consecutive_exceeds, 4);
}

#[test]
fn test_grace_period_cpu_independent_from_temperature() {
    let server_id = "127.0.0.1:3000";
    let mut actor = actor_with(vec![create_test_server_config("127.0.0.1", 3000)]);

    for _ in 0..3 {
        actor.on_metric_event(&observe(server_id, 50.0, Some(75.0)));
    }
    let state = actor.get_alert_state(server_id, 0).unwrap();
    assert_eq!(state.temp_consecutive_exceeds, 3);
    assert_eq!(state.cpu_consecutive_exceeds, 0);

    for i in 1..=2 {
        actor.on_metric_event(&observe(server_id, 85.0, Some(75.0)));
        let state = actor.get_alert_state(server_id, 0).unwrap();
        assert_eq!(state.cpu_consecutive_exceeds, i);
        assert!(state.temp_consecutive_exceeds >= 3);
    }
}

#[test]
fn test_back_to_ok_resets_grace_counter() {
    let server_id = "127.0.0.1:3000";
    let mut actor = actor_with(vec![create_test_server_config("127.0.0.1", 3000)]);

    for _ in 0..4 {
        actor.on_metric_event(&observe(server_id, 85.0, Some(50.0)));
    }
    let state = actor.get_alert_state(server_id, 0).unwrap();
    assert!(state.cpu_consecutive_exceeds > 0);

    actor.on_metric_event(&observe(server_id, 50.0, Some(50.0)));
    let state = actor.get_alert_state(server_id, 0).unwrap();
    assert_eq!(state.cpu_consecutive_exceeds, 0);
}

#[test]
fn test_mute_prevents_alert_processing() {
    let server_id = "127.0.0.1:3000";
    let mut actor = actor_with(vec![create_test_server_config("127.0.0.1", 3000)]);

    assert!(matches!(actor.handle_request(AlertRequest::MuteAlerts { duration_secs: 60 }, 0), AlertReply::Continue));
    assert!(actor.is_muted());
    for _ in 0..10 {
        let actions = actor.on_metric_event(&observe(server_id, 95.0, Some(85.0)));
        assert!(actions.is_empty());
    }
    let state = actor.get_alert_state(server_id, 0).unwrap();
    assert_eq!(state.cpu_consecutive_exceeds, 0);
    assert_eq!(state.temp_consecutive_exceeds, 0);

    assert!(matches!(actor.handle_request(AlertRequest::UnmuteAlerts, 0), AlertReply::Continue));
    assert!(!actor.is_muted());
    actor.on_metric_event(&observe(server_id, 95.0, Some(85.0)));
    let state = actor.get_alert_state(server_id, 0).unwrap();
    assert_eq!(state.cpu_consecutive_exceeds, 1);
    assert_eq!(state.temp_consecutive_exceeds, 1);
}

#[test]
fn test_multiple_servers_independent_state() {
    let server1_id = "127.0.0.1:3000";
    let server2_id = "127.0.0.1:3001";
    let mut actor = actor_with(vec![
        create_test_server_config("127.0.0.1", 3000),
        create_test_server_config("127.0.0.1", 3001),
    ]);

    for _ in 0..3 {
        actor.on_metric_event(&observe(server1_id, 85.0, Some(75.0)));
    }
    let state1 = actor.get_alert_state(server1_id, 0).unwrap();
    assert!(state1.cpu_consecutive_exceeds > 0);
    let state2 = actor.get_alert_state(server2_id, 0).unwrap();
    assert_eq!(state2.cpu_consecutive_exceeds, 0);
    assert_eq!(state2.temp_consecutive_exceeds, 0);
}

#[test]
fn test_get_state_unregistered_server_returns_none() {
    let actor = actor_with(vec![create_test_server_config("127.0.0.1", 3000)]);
    assert!(actor.get_alert_state("192.168.1.100:3000", 0).is_none());
    let mut actor = actor;
    match actor.handle_request(AlertRequest::GetState { server_id: "192.168.1.100:3000".to_string() }, 5) {
        AlertReply::State(s) => assert!(s.is_none()),
        other => panic!("unexpected reply {other:?}"),
    }
}

#[test]
fn state_snapshot_reports_identifier_and_time() {
    let mut actor = actor_with(vec![create_test_server_config("10.1.2.3", 4000)]);
    match actor.handle_request(AlertRequest::GetState { server_id: "10.1.2.3:4000".to_string() }, 1_700_000_000_000) {
        AlertReply::State(Some(s)) => {
            assert_eq!(s.server_id, "10.1.2.3:4000");
            assert_eq!(s.last_evaluation, 1_700_000_000_000);
        }
        other => panic!("unexpected reply {other:?}"),
    }
    assert!(matches!(actor.handle_request(AlertRequest::Shutdown, 0), AlertReply::Stop));
}

#[test]
fn unregistered_server_events_are_ignored() {
    let mut actor = actor_with(vec![create_test_server_config("127.0.0.1", 3000)]);
    let actions = actor.on_metric_event(&observe("10.9.9.9:1", 99.0, Some(99.0)));
    assert!(actions.is_empty());
    assert!(actor.get_alert_state("10.9.9.9:1", 0).is_none());
    assert_eq!(actor.get_alert_state("127.0.0.1:3000", 0).unwrap().cpu_consecutive_exceeds, 0);
}

#[test]
fn recovery_after_alert_notifies_back_to_ok() {
    let server_id = "127.0.0.1:3000";
    let mut config = create_test_server_config("127.0.0.1", 3000);
    config.limits = Some(ResolvedLimits {
        temperature: None,
        usage: Some(ResolvedLimit { limit: 80, grace: Some(0), alert: Some(hook()) }),
    });
    let mut actor = actor_with(vec![config]);
    let actions = actor.on_metric_event(&observe(server_id, 90.0, None));
    assert_eq!(actions.len(), 1);
    assert!(matches!(actions[0], AlertAction::Usage { evaluation: ResourceEvaluation::StartsToExceed, .. }));
    let actions = actor.on_metric_event(&observe(server_id, 90.0, None));
    assert!(actions.is_empty());
    let actions = actor.on_metric_event(&observe(server_id, 10.0, None));
    assert_eq!(actions.len(), 1);
    assert!(matches!(actions[0], AlertAction::Usage { evaluation: ResourceEvaluation::BackToOk, .. }));
    assert_eq!(actor.get_alert_state(server_id, 0).unwrap().cpu_consecutive_exceeds, 0);
}

#[test]
fn missing_temperature_reading_leaves_its_counter() {
    let server_id = "127.0.0.1:3000";
    let mut actor = actor_with(vec![create_test_server_config("127.0.0.1", 3000)]);
    actor.on_metric_event(&observe(server_id, 50.0, Some(90.0)));
    actor.on_metric_event(&observe(server_id, 50.0, None));
    assert_eq!(actor.get_alert_state(server_id, 0).unwrap().temp_consecutive_exceeds, 1);
}

fn service_config(name: &str, grace: Option<usize>, alert: Option<Alert>) -> ResolvedServiceConfig {
    ResolvedServiceConfig {
        name: name.to_string(),
        url: "https://api.example.com/health".to_string(),
        interval: 60,
        timeout: 10,
        method: HttpMethod::Get,
        expected_status: None,
        body_pattern: None,
        grace,
        alert,
    }
}

fn check(name: &str, status: ServiceStatus, error: Option<&str>) -> ServiceCheckObservation {
    ServiceCheckObservation {
        service_name: name.to_string(),
        url: "https://api.example.com/health".to_string(),
        status,
        error_message: error.map(|e| e.to_string()),
    }
}

#[test]
fn service_alert_after_grace_and_on_recovery() {
    let mut actor = AlertActor::new();
    actor.register_service(service_config("api", Some(2), Some(hook())));

    assert!(actor.on_service_check_event(&check("api", ServiceStatus::Up, None)).is_none());
    assert!(actor.on_service_check_event(&check("api", ServiceStatus::Down, Some("HTTP 500"))).is_none());
    // the second consecutive failure reaches the grace period and alerts
    let action = actor
        .on_service_check_event(&check("api", ServiceStatus::Down, Some("HTTP 500")))
        .unwrap();
    assert_eq!(action.service_name, "api");
    assert_eq!(action.current_status, ServiceStatus::Down);
    assert_eq!(action.error_message, Some("HTTP 500".to_string()));
    // further failures do not alert again
    assert!(actor.on_service_check_event(&check("api", ServiceStatus::Down, Some("HTTP 500"))).is_none());
    let recovery = actor.on_service_check_event(&check("api", ServiceStatus::Up, None)).unwrap();
    assert_eq!(recovery.current_status, ServiceStatus::Up);

    // three failures in a row with a grace of three: the third alerts
    let mut actor = AlertActor::new();
    actor.register_service(service_config("db", Some(3), Some(hook())));
    assert!(actor.on_service_check_event(&check("db", ServiceStatus::Up, None)).is_none());
    assert!(actor.on_service_check_event(&check("db", ServiceStatus::Down, None)).is_none());
    assert!(actor.on_service_check_event(&check("db", ServiceStatus::Down, None)).is_none());
    assert!(actor.on_service_check_event(&check("db", ServiceStatus::Down, None)).is_some());
    // a failure and a recovery below the grace period stay silent
    assert!(actor.on_service_check_event(&check("db", ServiceStatus::Up, None)).is_some());
    assert!(actor.on_service_check_event(&check("db", ServiceStatus::Degraded, None)).is_none());
    assert!(actor.on_service_check_event(&check("db", ServiceStatus::Up, None)).is_none());

    let mut actor = AlertActor::new();
    actor.register_service(service_config("api", Some(1), Some(hook())));
    assert!(actor.on_service_check_event(&check("api", ServiceStatus::Up, None)).is_none());
    let action = actor
        .on_service_check_event(&check("api", ServiceStatus::Down, Some("HTTP 500")))
        .unwrap();
    assert_eq!(action.service_name, "api");
    assert_eq!(action.previous_status, Some(ServiceStatus::Up));
    assert_eq!(action.current_status, ServiceStatus::Down);
    assert_eq!(action.error_message, Some("HTTP 500".to_string()));
    assert!(actor.on_service_check_event(&check("api", ServiceStatus::Down, None)).is_none());
    let recovery = actor.on_service_check_event(&check("api", ServiceStatus::Up, None)).unwrap();
    assert_eq!(recovery.previous_status, Some(ServiceStatus::Down));
    assert_eq!(recovery.current_status, ServiceStatus::Up);
    assert_eq!(recovery.error_message, None);
}

#[test]
fn service_without_alert_or_registration_sends_nothing() {
    let mut actor = AlertActor::new();
    actor.register_service(service_config("quiet", None, None));
    assert!(actor.on_service_check_event(&check("quiet", ServiceStatus::Down, None)).is_none());
    assert!(actor.on_service_check_event(&check("other", ServiceStatus::Down, None)).is_none());
}

#[test]
fn service_status_changes_worth_notifying() {
    assert!(should_send_service_alert(Some(ServiceStatus::Up), ServiceStatus::Down));
    assert!(should_send_service_alert(Some(ServiceStatus::Up), ServiceStatus::Degraded));
    assert!(should_send_service_alert(None, ServiceStatus::Down));
    assert!(should_send_service_alert(None, ServiceStatus::Degraded));
    assert!(should_send_service_alert(Some(ServiceStatus::Down), ServiceStatus::Up));
    assert!(should_send_service_alert(Some(ServiceStatus::Degraded), ServiceStatus::Up));
    assert!(!should_send_service_alert(None, ServiceStatus::Up));
    assert!(!should_send_service_alert(Some(ServiceStatus::Up), ServiceStatus::Up));
    assert!(!should_send_service_alert(Some(ServiceStatus::Down), ServiceStatus::Degraded));
}

#[test]
fn thresholds_of_registered_server() {
    let actor = actor_with(vec![create_test_server_config("127.0.0.1", 3000)]);
    let t = actor.thresholds("127.0.0.1:3000").unwrap();
    assert_eq!(t.temperature, Some(70));
    assert_eq!(t.usage, Some(80));
    assert!(actor.thresholds("127.0.0.1:3001").is_none());
    assert!(actor.can_record(&observe("127.0.0.1:3000", 95.0, Some(95.0))));
    assert!(actor.can_record_check(&check("api", ServiceStatus::Down, None)));
}

#[test]
fn counter_overflow_is_detected_before_recording() {
    let mut actor = actor_with(vec![create_test_server_config("127.0.0.1", 3000)]);
    actor.server_counters[0].usage = usize::MAX;
    // a reading above the limit would raise the full counter
    assert!(!actor.can_record(&observe("127.0.0.1:3000", 95.0, None)));
    // a reading below the limit resets it
    assert!(actor.can_record(&observe("127.0.0.1:3000", 10.0, None)));
    // muted, nothing is recorded
    actor.handle_request(AlertRequest::MuteAlerts { duration_secs: 1 }, 0);
    assert!(actor.can_record(&observe("127.0.0.1:3000", 95.0, None)));
}

#[test]
fn service_overflow_is_detected_before_recording() {
    let mut actor = AlertActor::new();
    actor.register_service(service_config("api", None, None));
    actor.service_progress[0].last_status = Some(ServiceStatus::Down);
    actor.service_progress[0].consecutive_down = usize::MAX;
    assert!(!actor.can_record_check(&check("api", ServiceStatus::Down, None)));
    assert!(actor.can_record_check(&check("api", ServiceStatus::Up, None)));
    assert!(actor.can_record_check(&check("other", ServiceStatus::Down, None)));
}

#[test]
fn test_grace_period_race_condition() {
    // however many readings arrive, the counter never exceeds their number
    let server_id = "127.0.0.1:3000";
    let mut actor = actor_with(vec![create_test_server_config("127.0.0.1", 3000)]);
    for n in 1..=10usize {
        actor.on_metric_event(&observe(server_id, 90.0, Some(45.0)));
        assert!(actor.get_alert_state(server_id, 0).unwrap().cpu_consecutive_exceeds <= n);
    }
    assert_eq!(actor.get_alert_state(server_id, 0).unwrap().cpu_consecutive_exceeds, 10);
}
