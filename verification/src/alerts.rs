//! The texts of alert notifications and the choice of the alert target.
//!
//! Readings are handed in already formatted (one decimal), as text.
use vstd::prelude::*;
use vstd::string::*;
use crate::config::{Alert, ResolvedServerConfig};
use crate::alert_engine::{temperature_limit, usage_limit};
use crate::evaluation::ResourceEvaluation;
use crate::status::ServiceStatus;
use crate::text::{decimal, push_decimal};

verus! {

/// The alert target of a server's temperature limit.
pub open spec fn spec_temperature_target(config: ResolvedServerConfig) -> Option<Alert> {
    match temperature_limit(config.limits) {
        Some(l) => l.alert,
        None => None,
    }
}

/// The alert target of a server's CPU usage limit.
pub open spec fn spec_usage_target(config: ResolvedServerConfig) -> Option<Alert> {
    match usage_limit(config.limits) {
        Some(l) => l.alert,
        None => None,
    }
}

/// Where a temperature notification of this server goes, if anywhere.
pub fn temperature_alert_target(config: &ResolvedServerConfig) -> (a: Option<&Alert>)
    ensures
        match spec_temperature_target(*config) {
            Some(t) => a == Some(&t),
            None => a is None,
        },
{
    match &config.limits {
        Some(l) => match &l.temperature {
            Some(t) => match &t.alert {
                Some(a) => Some(a),
                None => None,
            },
            None => None,
        },
        None => None,
    }
}

/// Where a CPU usage notification of this server goes, if anywhere.
pub fn usage_alert_target(config: &ResolvedServerConfig) -> (a: Option<&Alert>)
    ensures
        match spec_usage_target(*config) {
            Some(t) => a == Some(&t),
            None => a is None,
        },
{
    match &config.limits {
        Some(l) => match &l.usage {
            Some(u) => match &u.alert {
                Some(a) => Some(a),
                None => None,
            },
            None => None,
        },
        None => None,
    }
}

/// The webhook text of a temperature notification.
pub open spec fn spec_temperature_message(
    evaluation: ResourceEvaluation,
    server: Seq<char>,
    temperature: Seq<char>,
    limit: nat,
) -> Seq<char> {
    match evaluation {
        ResourceEvaluation::StartsToExceed => "🔥 **Temperature Alert**: Server `"@ + server
            + "` temperature is **"@ + temperature + "°C** (limit: "@ + decimal(limit) + "°C)"@,
        ResourceEvaluation::BackToOk => "✅ **Temperature OK**: Server `"@ + server
            + "` temperature is back to normal: **"@ + temperature + "°C**"@,
        _ => "Temperature update for server `"@ + server + "`: "@ + temperature + "°C"@,
    }
}

/// The webhook text of a CPU usage notification.
pub open spec fn spec_usage_message(
    evaluation: ResourceEvaluation,
    server: Seq<char>,
    usage: Seq<char>,
    limit: nat,
) -> Seq<char> {
    match evaluation {
        ResourceEvaluation::StartsToExceed => "⚠️ **CPU Usage Alert**: Server `"@ + server
            + "` CPU usage is **"@ + usage + "%** (limit: "@ + decimal(limit) + "%)"@,
        ResourceEvaluation::BackToOk => "✅ **CPU Usage OK**: Server `"@ + server
            + "` CPU usage is back to normal: **"@ + usage + "%**"@,
        _ => "CPU usage update for server `"@ + server + "`: "@ + usage + "%"@,
    }
}

/// The webhook text of a temperature notification for the server shown as `server`.
pub fn format_temperature_message(
    evaluation: ResourceEvaluation,
    server: &str,
    temperature_text: &str,
    limit: usize,
) -> (m: String)
    ensures
        m@ == spec_temperature_message(evaluation, server@, temperature_text@, limit as nat),
{
    match evaluation {
        ResourceEvaluation::StartsToExceed => {
            let mut m = String::from_str("🔥 **Temperature Alert**: Server `");
            m.append(server);
            m.append("` temperature is **");
            m.append(temperature_text);
            m.append("°C** (limit: ");
            let ghost before = m@;
            push_decimal(&mut m, limit as u64);
            m.append("°C)");
            assert(m@ =~= spec_temperature_message(evaluation, server@, temperature_text@, limit as nat));
            m
        },
        ResourceEvaluation::BackToOk => {
            let mut m = String::from_str("✅ **Temperature OK**: Server `");
            m.append(server);
            m.append("` temperature is back to normal: **");
            m.append(temperature_text);
            m.append("°C**");
            m
        },
        _ => {
            let mut m = String::from_str("Temperature update for server `");
            m.append(server);
            m.append("`: ");
            m.append(temperature_text);
            m.append("°C");
            m
        },
    }
}

/// The webhook text of a CPU usage notification for the server shown as `server`.
pub fn format_usage_message(evaluation: ResourceEvaluation, server: &str, usage_text: &str, limit: usize) -> (m: String)
    ensures
        m@ == spec_usage_message(evaluation, server@, usage_text@, limit as nat),
{
    match evaluation {
        ResourceEvaluation::StartsToExceed => {
            let mut m = String::from_str("⚠️ **CPU Usage Alert**: Server `");
            m.append(server);
            m.append("` CPU usage is **");
            m.append(usage_text);
            m.append("%** (limit: ");
            push_decimal(&mut m, limit as u64);
            m.append("%)");
            assert(m@ =~= spec_usage_message(evaluation, server@, usage_text@, limit as nat));
            m
        },
        ResourceEvaluation::BackToOk => {
            let mut m = String::from_str("✅ **CPU Usage OK**: Server `");
            m.append(server);
            m.append("` CPU usage is back to normal: **");
            m.append(usage_text);
            m.append("%**");
            m
        },
        _ => {
            let mut m = String::from_str("CPU usage update for server `");
            m.append(server);
            m.append("`: ");
            m.append(usage_text);
            m.append("%");
            m
        },
    }
}

/// The Discord text mentioning a user for a temperature notification:
/// `🌡️ ({server} ~ {temperature}°C) <@{user}>`.
pub fn temperature_mention(server: &str, temperature_text: &str, user_id: &str) -> (m: String)
    ensures
        m@ == "🌡️ ("@ + server@ + " ~ "@ + temperature_text@ + "°C) <@"@ + user_id@ + ">"@,
{
    let mut m = String::from_str("🌡️ (");
    m.append(server);
    m.append(" ~ ");
    m.append(temperature_text);
    m.append("°C) <@");
    m.append(user_id);
    m.append(">");
    m
}

/// The Discord text mentioning a user for a CPU usage notification:
/// `💻 ({server} ~ {usage}%) <@{user}>`.
pub fn usage_mention(server: &str, usage_text: &str, user_id: &str) -> (m: String)
    ensures
        m@ == "💻 ("@ + server@ + " ~ "@ + usage_text@ + "%) <@"@ + user_id@ + ">"@,
{
    let mut m = String::from_str("💻 (");
    m.append(server);
    m.append(" ~ ");
    m.append(usage_text);
    m.append("%) <@");
    m.append(user_id);
    m.append(">");
    m
}

/// The upper-case word for a failed status in service notifications.
pub open spec fn spec_failure_word(status: ServiceStatus) -> Seq<char> {
    if status == ServiceStatus::Down {
        "DOWN"@
    } else {
        "DEGRADED"@
    }
}

/// The webhook text of a service notification.
pub open spec fn spec_service_message(
    service: Seq<char>,
    url: Seq<char>,
    status: ServiceStatus,
    error: Option<Seq<char>>,
) -> Seq<char> {
    match status {
        ServiceStatus::Up => "✅ **Service Recovered**: `"@ + service + "` is back UP\nURL: "@ + url,
        _ => {
            let w = spec_failure_word(status);
            match error {
                Some(e) => "🔴 **Service "@ + w + "**: `"@ + service + "` is "@ + w + " ("@ + e
                    + ")\nURL: "@ + url,
                None => "🔴 **Service "@ + w + "**: `"@ + service + "` is "@ + w + "\nURL: "@ + url,
            }
        },
    }
}

/// The webhook text of a service notification.
pub fn service_webhook_message(
    service_name: &str,
    url: &str,
    status: ServiceStatus,
    error_message: Option<&str>,
) -> (m: String)
    ensures
        m@ == spec_service_message(
            service_name@,
            url@,
            status,
            match error_message {
                Some(e) => Some(e@),
                None => None,
            },
        ),
{
    match status {
        ServiceStatus::Up => {
            let mut m = String::from_str("✅ **Service Recovered**: `");
            m.append(service_name);
            m.append("` is back UP\nURL: ");
            m.append(url);
            m
        },
        _ => {
            let word = if status == ServiceStatus::Down {
                "DOWN"
            } else {
                "DEGRADED"
            };
            let mut m = String::from_str("🔴 **Service ");
            m.append(word);
            m.append("**: `");
            m.append(service_name);
            m.append("` is ");
            m.append(word);
            match error_message {
                Some(e) => {
                    m.append(" (");
                    m.append(e);
                    m.append(")\nURL: ");
                },
                None => {
                    m.append("\nURL: ");
                },
            }
            m.append(url);
            m
        },
    }
}

/// The Discord text mentioning a user for a service notification:
/// `{emoji} Service: \`{name}\` <@{user}>`, red for a failure, a check mark for recovery.
pub fn service_mention(status: ServiceStatus, service_name: &str, user_id: &str) -> (m: String)
    ensures
        m@ == (if status == ServiceStatus::Up {
            "✅"@
        } else {
            "🔴"@
        }) + " Service: `"@ + service_name@ + "` <@"@ + user_id@ + ">"@,
{
    let emoji = match status {
        ServiceStatus::Down | ServiceStatus::Degraded => "🔴",
        ServiceStatus::Up => "✅",
    };
    let mut m = String::from_str(emoji);
    m.append(" Service: `");
    m.append(service_name);
    m.append("` <@");
    m.append(user_id);
    m.append(">");
    m
}

} // verus!
