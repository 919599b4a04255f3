use guardia::alerts::{
    format_temperature_message, format_usage_message, service_mention, service_webhook_message,
    temperature_alert_target, temperature_mention, usage_alert_target, usage_mention,
};
use guardia::config::{Alert, Discord, ResolvedLimit, ResolvedLimits, ResolvedServerConfig, Webhook};
use guardia::discord::{
    build_service_embed, build_temperature_embed, build_usage_embed, progress_bar, Embed,
    MessageBuilder, COLOR_GREEN, COLOR_LIGHT_BLUE, COLOR_ORANGE, COLOR_RED,
};
use guardia::evaluation::ResourceEvaluation;
use guardia::status::ServiceStatus;

#[test]
fn temperature_messages() {
    assert_eq!(
        format_temperature_message(ResourceEvaluation::StartsToExceed, "Web", "75.0", 70),
        "🔥 **Temperature Alert**: Server `Web` temperature is **75.0°C** (limit: 70°C)"
    );
    assert_eq!(
        format_temperature_message(ResourceEvaluation::BackToOk, "Web", "65.5", 70),
        "✅ **Temperature OK**: Server `Web` temperature is back to normal: **65.5°C**"
    );
    assert_eq!(
        format_temperature_message(ResourceEvaluation::Exceeding, "Web", "71.0", 70),
        "Temperature update for server `Web`: 71.0°C"
    );
}

#[test]
fn usage_messages() {
    assert_eq!(
        format_usage_message(ResourceEvaluation::StartsToExceed, "10.0.0.1:3000", "91.2", 80),
        "⚠️ **CPU Usage Alert**: Server `10.0.0.1:3000` CPU usage is **91.2%** (limit: 80%)"
    );
    assert_eq!(
        format_usage_message(ResourceEvaluation::BackToOk, "db", "12.0", 80),
        "✅ **CPU Usage OK**: Server `db` CPU usage is back to normal: **12.0%**"
    );
    assert_eq!(
        format_usage_message(ResourceEvaluation::Normal, "db", "12.0", 80),
        "CPU usage update for server `db`: 12.0%"
    );
}

#[test]
fn mentions() {
    assert_eq!(temperature_mention("Web", "75.0", "42"), "🌡️ (Web ~ 75.0°C) <@42>");
    assert_eq!(usage_mention("Web", "91.0", "42"), "💻 (Web ~ 91.0%) <@42>");
    assert_eq!(service_mention(ServiceStatus::Down, "api", "7"), "🔴 Service: `api` <@7>");
    assert_eq!(service_mention(ServiceStatus::Degraded, "api", "7"), "🔴 Service: `api` <@7>");
    assert_eq!(service_mention(ServiceStatus::Up, "api", "7"), "✅ Service: `api` <@7>");
}

#[test]
fn service_webhook_messages() {
    assert_eq!(
        service_webhook_message("api", "https://x/health", ServiceStatus::Down, Some("HTTP 500")),
        "🔴 **Service DOWN**: `api` is DOWN (HTTP 500)\nURL: https://x/health"
    );
    assert_eq!(
        service_webhook_message("api", "https://x/health", ServiceStatus::Degraded, None),
        "🔴 **Service DEGRADED**: `api` is DEGRADED\nURL: https://x/health"
    );
    assert_eq!(
        service_webhook_message("api", "https://x/health", ServiceStatus::Up, Some("ignored")),
        "✅ **Service Recovered**: `api` is back UP\nURL: https://x/health"
    );
}

fn server_with_alerts(temp: Option<Alert>, usage: Option<Alert>) -> ResolvedServerConfig {
    ResolvedServerConfig {
        ip: "10.0.0.1".to_string(),
        display: None,
        port: 3000,
        interval: 10,
        token: None,
        limits: Some(ResolvedLimits {
            temperature: Some(ResolvedLimit { limit: 70, grace: None, alert: temp }),
            usage: Some(ResolvedLimit { limit: 80, grace: None, alert: usage }),
        }),
    }
}

#[test]
fn alert_targets_follow_the_limits() {
    let c = server_with_alerts(
        Some(Alert::Webhook(Webhook { url: "https://hook".to_string() })),
        Some(Alert::Discord(Discord { url: "https://discord".to_string(), user_id: None })),
    );
    assert!(matches!(temperature_alert_target(&c), Some(Alert::Webhook(_))));
    assert!(matches!(usage_alert_target(&c), Some(Alert::Discord(_))));
    let c = server_with_alerts(None, None);
    assert!(temperature_alert_target(&c).is_none());
    assert!(usage_alert_target(&c).is_none());
}

#[test]
fn progress_bars() {
    assert_eq!(progress_bar(0, "✅", "0.0"), "✅ `░░░░░░░░░░` 0.0% of limit");
    assert_eq!(progress_bar(3, "🟡", "35.0"), "🟡 `███░░░░░░░` 35.0% of limit");
    assert_eq!(progress_bar(25, "🔴", "250.0"), "🔴 `██████████` 250.0% of limit");
}

fn field(e: &Embed, i: usize) -> (String, String, bool) {
    (e.fields[i].name.clone(), e.fields[i].value.clone(), e.fields[i].inline)
}

#[test]
fn temperature_embed() {
    let e = build_temperature_embed(
        "Web",
        "10.0.0.1",
        ResourceEvaluation::StartsToExceed,
        "75.0",
        70,
        "🔴 `██████████` 107.1% of limit".to_string(),
        "2024-01-01T00:00:00Z".to_string(),
    );
    assert_eq!(e.title.as_deref(), Some("🔥 Temperature Alert"));
    assert_eq!(e.description.as_deref(), Some("Server **Web** temperature has exceeded the limit!"));
    assert_eq!(e.color, Some(COLOR_RED));
    assert_eq!(field(&e, 0), ("🌡️ Current Temperature".to_string(), "75.0°C".to_string(), true));
    assert_eq!(field(&e, 1), ("⚠️ Limit".to_string(), "70°C".to_string(), true));
    assert_eq!(field(&e, 2), ("📊 Status".to_string(), "🔴 `██████████` 107.1% of limit".to_string(), false));
    assert_eq!(e.footer.as_ref().unwrap().text, "Server: Web | 10.0.0.1");
    assert_eq!(e.timestamp.as_deref(), Some("2024-01-01T00:00:00Z"));

    let e = build_temperature_embed("Web", "10.0.0.1", ResourceEvaluation::BackToOk, "60.0", 70, String::new(), String::new());
    assert_eq!(e.title.as_deref(), Some("✅ Temperature Recovered"));
    assert_eq!(e.color, Some(COLOR_GREEN));
    let e = build_temperature_embed("Web", "10.0.0.1", ResourceEvaluation::Exceeding, "72.0", 70, String::new(), String::new());
    assert_eq!(e.title.as_deref(), Some("🌡️ Temperature Update"));
    assert_eq!(e.color, Some(COLOR_LIGHT_BLUE));
}

#[test]
fn usage_embed() {
    let e = build_usage_embed(
        "db",
        "10.0.0.2",
        ResourceEvaluation::StartsToExceed,
        "95.5",
        80,
        "bar".to_string(),
        "now".to_string(),
    );
    assert_eq!(e.title.as_deref(), Some("⚠️ CPU Usage Alert"));
    assert_eq!(e.color, Some(COLOR_ORANGE));
    assert_eq!(field(&e, 0), ("💻 Current CPU Usage".to_string(), "95.5%".to_string(), true));
    assert_eq!(field(&e, 1), ("⚠️ Limit".to_string(), "80%".to_string(), true));
    assert_eq!(e.description.as_deref(), Some("Server **db** CPU usage has exceeded the limit!"));
}

#[test]
fn service_embed() {
    let e = build_service_embed("api", "https://x", ServiceStatus::Down, Some("timeout"), "t".to_string());
    assert_eq!(e.title.as_deref(), Some("🔴 Service Down"));
    assert_eq!(e.color, Some(COLOR_RED));
    assert_eq!(e.description.as_deref(), Some("Service **api** is down"));
    assert_eq!(e.fields.len(), 2);
    assert_eq!(field(&e, 1), ("❗ Error".to_string(), "timeout".to_string(), false));
    let e = build_service_embed("api", "https://x", ServiceStatus::Up, None, "t".to_string());
    assert_eq!(e.title.as_deref(), Some("✅ Service Recovered"));
    assert_eq!(e.fields.len(), 1);
    assert_eq!(field(&e, 0), ("🌐 URL".to_string(), "https://x".to_string(), false));
}

#[test]
fn message_builder_collects_content_and_embeds() {
    let m = MessageBuilder::new().build();
    assert!(m.content.is_none());
    assert!(m.embeds.is_empty());
    let e = build_service_embed("api", "https://x", ServiceStatus::Degraded, None, "t".to_string());
    let m = MessageBuilder::new().add_embed(e).content("hello".to_string()).build();
    assert_eq!(m.content.as_deref(), Some("hello"));
    assert_eq!(m.embeds.len(), 1);
    assert_eq!(m.embeds[0].title.as_deref(), Some("🟠 Service Degraded"));
}

#[test]
fn builder_chain_keeps_embeds_in_order_and_last_content() {
    let down = build_service_embed("a", "https://a", ServiceStatus::Down, None, "t".to_string());
    let up = build_service_embed("b", "https://b", ServiceStatus::Up, None, "t".to_string());
    let degraded = build_service_embed("c", "https://c", ServiceStatus::Degraded, None, "t".to_string());
    let m = MessageBuilder::new()
        .content("first".to_string())
        .add_embed(down)
        .add_embed(up)
        .content("second".to_string())
        .add_embed(degraded)
        .build();
    assert_eq!(m.content.as_deref(), Some("second"));
    let titles: Vec<Option<String>> = m.embeds.iter().map(|e| e.title.clone()).collect();
    assert_eq!(titles.len(), 3);
    assert_eq!(titles[2].as_deref(), Some("🟠 Service Degraded"));
    assert_ne!(titles[0], titles[1]);
    let plain = MessageBuilder::new()
        .add_embed(build_service_embed("a", "https://a", ServiceStatus::Down, None, "t".to_string()))
        .build();
    assert!(plain.content.is_none());
    assert_eq!(plain.embeds.len(), 1);
}
