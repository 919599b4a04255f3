use guardia::evaluation::{track_reading, ResourceEvaluation};
use guardia::monitors::{LimitMonitor, ResourceMonitor};
use guardia::config::{Limit, Limits, ServerConfig};

fn eval(resource: f32, limit: f32, grace: usize, current_grace: usize) -> ResourceEvaluation {
    ResourceEvaluation::evaluate(resource < limit, grace, current_grace)
}

#[test]
fn test_grace_period_sequence_property() {
    let limit = 80.0;
    let grace = 2;

    let mut current_grace = 0;
    let result = eval(50.0, limit, grace, current_grace);
    assert_eq!(result, ResourceEvaluation::Normal);

    let result = eval(85.0, limit, grace, current_grace);
    assert_eq!(result, ResourceEvaluation::Exceeding);
    current_grace += 1;

    let result = eval(85.0, limit, grace, current_grace);
    assert_eq!(result, ResourceEvaluation::Exceeding);
    current_grace += 1;

    let result = eval(85.0, limit, grace, current_grace);
    assert_eq!(result, ResourceEvaluation::StartsToExceed);
    current_grace += 1;

    let result = eval(50.0, limit, grace, current_grace);
    assert_eq!(result, ResourceEvaluation::BackToOk);

    current_grace = 0;

    let result = eval(50.0, limit, grace, current_grace);
    assert_eq!(result, ResourceEvaluation::Normal);
}

#[test]
fn test_independent_evaluation_invariant() {
    let temp_limit = 70.0;
    let cpu_limit = 80.0;
    let grace = 3;

    let temp_result = eval(75.0, temp_limit, grace, 2);
    assert_eq!(temp_result, ResourceEvaluation::Exceeding);

    let cpu_result = eval(50.0, cpu_limit, grace, 0);
    assert_eq!(cpu_result, ResourceEvaluation::Normal);
}

#[test]
fn zero_grace_alerts_on_first_exceeding_reading() {
    assert_eq!(eval(90.0, 80.0, 0, 0), ResourceEvaluation::StartsToExceed);
    assert_eq!(eval(79.9, 80.0, 0, 0), ResourceEvaluation::Normal);
    // exactly at the limit counts as exceeding
    assert_eq!(eval(80.0, 80.0, 0, 0), ResourceEvaluation::StartsToExceed);
}

#[test]
fn below_limit_within_grace_is_normal_and_after_alert_is_back_to_ok() {
    assert_eq!(ResourceEvaluation::evaluate(true, 3, 3), ResourceEvaluation::Normal);
    assert_eq!(ResourceEvaluation::evaluate(true, 3, 4), ResourceEvaluation::BackToOk);
    assert_eq!(ResourceEvaluation::evaluate(false, 3, 4), ResourceEvaluation::Exceeding);
}

#[test]
fn one_alert_per_exceeding_run() {
    // a run of 10 readings above the limit with grace 3 raises exactly one alert
    let grace = 3;
    let mut counter = 0;
    let mut alerts = 0;
    for _ in 0..10 {
        let (e, next) = track_reading(false, grace, counter);
        if e == ResourceEvaluation::StartsToExceed {
            alerts += 1;
        }
        counter = next;
    }
    assert_eq!(alerts, 1);
    assert_eq!(counter, 10);
    let (e, next) = track_reading(true, grace, counter);
    assert_eq!(e, ResourceEvaluation::BackToOk);
    assert_eq!(next, 0);
}

#[test]
fn notifications_alternate_over_mixed_readings() {
    let readings = [false, false, true, false, false, false, true, true, false, false];
    let grace = 1;
    let mut counter = 0;
    let mut notes = Vec::new();
    for r in readings {
        let (e, next) = track_reading(r, grace, counter);
        if e.is_notification() {
            notes.push(e);
        }
        counter = next;
    }
    assert_eq!(
        notes,
        vec![
            ResourceEvaluation::StartsToExceed,
            ResourceEvaluation::BackToOk,
            ResourceEvaluation::StartsToExceed,
            ResourceEvaluation::BackToOk,
            ResourceEvaluation::StartsToExceed,
        ]
    );
}

fn server_with_limits() -> ServerConfig {
    ServerConfig {
        ip: "127.0.0.1".to_string(),
        display: None,
        port: 3000,
        interval: Some(5),
        token: None,
        limits: Some(Limits {
            temperature: Some(Limit { limit: 70, grace: Some(1), alert: None }),
            usage: Some(Limit { limit: 80, grace: None, alert: None }),
        }),
    }
}

#[test]
fn limit_monitor_resets_on_reading_below_limit() {
    let mut m = LimitMonitor::new(server_with_limits());
    m.update(Some(false), false);
    m.update(Some(false), false);
    assert_eq!(m.graces.temperature, 2);
    assert_eq!(m.graces.usage, 2);
    m.update(Some(true), false);
    assert_eq!(m.graces.temperature, 0);
    assert_eq!(m.graces.usage, 3);
    m.update(None, true);
    assert_eq!(m.graces.temperature, 0);
    assert_eq!(m.graces.usage, 0);
}

#[test]
fn resource_monitor_counts_only_consecutive_violations() {
    let mut m = ResourceMonitor::new(server_with_limits());
    let (t, u) = m.update(Some(false), true);
    assert_eq!(t, Some(ResourceEvaluation::Exceeding));
    assert_eq!(u, Some(ResourceEvaluation::Normal));
    assert_eq!(m.graces.temperature, 1);
    // a reading below the limit within the grace period resets the counter
    let (t, _) = m.update(Some(true), true);
    assert_eq!(t, Some(ResourceEvaluation::Normal));
    assert_eq!(m.graces.temperature, 0);
    // so the next violation starts over instead of alerting
    let (t, _) = m.update(Some(false), true);
    assert_eq!(t, Some(ResourceEvaluation::Exceeding));
    assert_eq!(m.graces.temperature, 1);
    let (t, _) = m.update(Some(false), true);
    assert_eq!(t, Some(ResourceEvaluation::StartsToExceed));
    assert_eq!(m.graces.temperature, 2);
    let (t, _) = m.update(Some(true), true);
    assert_eq!(t, Some(ResourceEvaluation::BackToOk));
    assert_eq!(m.graces.temperature, 0);
}
