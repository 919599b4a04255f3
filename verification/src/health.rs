//! Health classification of servers and services from the age of their data.
//!
//! Timestamps are Unix milliseconds. Ages are counted in whole seconds, truncated
//! toward zero.
use vstd::prelude::*;
use crate::status::{ServerHealthStatus, ServiceHealthStatus, ServiceStatus};

verus! {

/// Age in seconds past which data counts as stale.
pub const STALE_THRESHOLD_SECS: i64 = 300;

/// Age in seconds under which a polling failure counts as the server being down.
pub const DOWN_THRESHOLD_SECS: i64 = 120;

/// The current time in Unix milliseconds.
///
/// Calls `chrono::Utc::now()` and takes its `timestamp_millis()`. Nothing is claimed about
/// the value: it is the machine's clock.
#[verifier::external_body]
pub(crate) fn now_millis() -> i64 {
    chrono::Utc::now().timestamp_millis()
}

/// Whole seconds in a span of milliseconds, truncated toward zero.
pub open spec fn whole_seconds(millis: int) -> int {
    if millis >= 0 {
        millis / 1000
    } else {
        -((-millis) / 1000)
    }
}

/// Age in whole seconds of `timestamp` at `now`.
pub open spec fn age_secs(timestamp: i64, now: i64) -> int {
    whole_seconds(now - timestamp)
}

proof fn lemma_age_thresholds(timestamp: i64, now: i64)
    ensures
        (age_secs(timestamp, now) > 300) <==> (now - timestamp >= 301000),
        (age_secs(timestamp, now) < 300) <==> (now - timestamp < 300000),
        (age_secs(timestamp, now) < 120) <==> (now - timestamp < 120000),
{
}

fn elapsed_millis(timestamp: i64, now: i64) -> (d: i128)
    ensures
        d == now - timestamp,
{
    now as i128 - timestamp as i128
}

/// Whether data taken at `timestamp` is stale at `now` (older than five minutes).
pub open spec fn spec_is_stale(timestamp: i64, now: i64) -> bool {
    age_secs(timestamp, now) > STALE_THRESHOLD_SECS
}

/// Whether metrics taken at `timestamp` are stale at `now`.
pub fn is_metrics_stale_at(timestamp: i64, now: i64) -> (b: bool)
    ensures
        b == spec_is_stale(timestamp, now),
{
    proof {
        lemma_age_thresholds(timestamp, now);
    }
    elapsed_millis(timestamp, now) >= 301000
}

/// Whether a poll made at `timestamp` is stale at `now`.
pub fn is_polling_stale_at(timestamp: i64, now: i64) -> (b: bool)
    ensures
        b == spec_is_stale(timestamp, now),
{
    is_metrics_stale_at(timestamp, now)
}

/// Whether a polling failure at `last_error` means the server is down at `now`: it is
/// less than two minutes old.
pub open spec fn spec_is_server_down(last_error: Option<i64>, now: i64) -> bool {
    match last_error {
        Some(t) => age_secs(t, now) < DOWN_THRESHOLD_SECS,
        None => false,
    }
}

pub fn is_server_down_at(last_error: Option<i64>, now: i64) -> (b: bool)
    ensures
        b == spec_is_server_down(last_error, now),
{
    match last_error {
        Some(t) => {
            proof {
                lemma_age_thresholds(t, now);
            }
            elapsed_millis(t, now) < 120000
        },
        None => false,
    }
}

/// A server's health from the time of its latest metrics, of its last successful poll and
/// of its last failed poll: down after a recent failure; up or stale by the age of the
/// metrics while polling succeeds recently; otherwise by the age of the metrics alone;
/// unknown with neither.
pub open spec fn spec_server_health(
    metric: Option<i64>,
    success: Option<i64>,
    error: Option<i64>,
    now: i64,
) -> ServerHealthStatus {
    if spec_is_server_down(error, now) {
        ServerHealthStatus::Down
    } else if success is Some && metric is Some && age_secs(metric->0, now) > STALE_THRESHOLD_SECS
        && age_secs(success->0, now) < STALE_THRESHOLD_SECS {
        ServerHealthStatus::Stale
    } else if success is Some && metric is Some && age_secs(metric->0, now) <= STALE_THRESHOLD_SECS
        && age_secs(success->0, now) < STALE_THRESHOLD_SECS {
        ServerHealthStatus::Up
    } else if success is Some && metric is None && age_secs(success->0, now) < STALE_THRESHOLD_SECS {
        ServerHealthStatus::Up
    } else {
        match metric {
            Some(m) => if spec_is_stale(m, now) {
                ServerHealthStatus::Stale
            } else {
                ServerHealthStatus::Up
            },
            None => ServerHealthStatus::Unknown,
        }
    }
}

/// Determines a server's health at `now`.
pub fn determine_server_health_at(
    metric_timestamp: Option<i64>,
    last_poll_success: Option<i64>,
    last_poll_error: Option<i64>,
    now: i64,
) -> (h: ServerHealthStatus)
    ensures
        h == spec_server_health(metric_timestamp, last_poll_success, last_poll_error, now),
{
    if is_server_down_at(last_poll_error, now) {
        return ServerHealthStatus::Down;
    }
    if let Some(success_time) = last_poll_success {
        proof {
            lemma_age_thresholds(success_time, now);
        }
        let success_recent = elapsed_millis(success_time, now) < 300000;
        if let Some(metric_time) = metric_timestamp {
            proof {
                lemma_age_thresholds(metric_time, now);
            }
            let metric_stale = elapsed_millis(metric_time, now) >= 301000;
            if metric_stale && success_recent {
                return ServerHealthStatus::Stale;
            }
            if !metric_stale && success_recent {
                return ServerHealthStatus::Up;
            }
        } else if success_recent {
            return ServerHealthStatus::Up;
        }
    }
    match metric_timestamp {
        Some(m) => if is_metrics_stale_at(m, now) {
            ServerHealthStatus::Stale
        } else {
            ServerHealthStatus::Up
        },
        None => ServerHealthStatus::Unknown,
    }
}

/// Whether metrics taken at `timestamp` are stale now.
pub fn is_metrics_stale(timestamp: i64) -> (b: bool)
    ensures
        exists|now: i64| b == spec_is_stale(timestamp, now),
{
    let now = now_millis();
    is_metrics_stale_at(timestamp, now)
}

/// Whether a poll made at `timestamp` is stale now.
pub fn is_polling_stale(timestamp: i64) -> (b: bool)
    ensures
        exists|now: i64| b == spec_is_stale(timestamp, now),
{
    let now = now_millis();
    is_polling_stale_at(timestamp, now)
}

/// Whether the last polling failure means the server is down now.
pub fn is_server_down(last_error_time: Option<i64>) -> (b: bool)
    ensures
        exists|now: i64| b == spec_is_server_down(last_error_time, now),
{
    let now = now_millis();
    is_server_down_at(last_error_time, now)
}

/// Determines a server's health now.
pub fn determine_server_health(
    metric_timestamp: Option<i64>,
    last_poll_success: Option<i64>,
    last_poll_error: Option<i64>,
) -> (h: ServerHealthStatus)
    ensures
        exists|now: i64|
            h == spec_server_health(metric_timestamp, last_poll_success, last_poll_error, now),
{
    let now = now_millis();
    determine_server_health_at(metric_timestamp, last_poll_success, last_poll_error, now)
}

/// A service's health from its latest check: stale when the check is older than five
/// minutes, otherwise the check's status.
pub open spec fn spec_service_health(status: ServiceStatus, checked_at: i64, now: i64) -> ServiceHealthStatus {
    if spec_is_stale(checked_at, now) {
        ServiceHealthStatus::Stale
    } else {
        match status {
            ServiceStatus::Up => ServiceHealthStatus::Up,
            ServiceStatus::Down => ServiceHealthStatus::Down,
            ServiceStatus::Degraded => ServiceHealthStatus::Degraded,
        }
    }
}

/// Determines a service's health at `now` from its latest check.
pub fn determine_service_health_at(status: ServiceStatus, checked_at: i64, now: i64) -> (h: ServiceHealthStatus)
    ensures
        h == spec_service_health(status, checked_at, now),
{
    if is_metrics_stale_at(checked_at, now) {
        ServiceHealthStatus::Stale
    } else {
        match status {
            ServiceStatus::Up => ServiceHealthStatus::Up,
            ServiceStatus::Down => ServiceHealthStatus::Down,
            ServiceStatus::Degraded => ServiceHealthStatus::Degraded,
        }
    }
}

} // verus!
