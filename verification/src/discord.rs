//! Discord webhook messages: embeds for temperature, CPU usage and service alerts, and a
//! builder for messages.
use vstd::prelude::*;
use vstd::string::*;
use crate::evaluation::ResourceEvaluation;
use crate::status::ServiceStatus;
use crate::text::{decimal, push_decimal};

verus! {

/// A Discord message: optional text and embeds.
#[derive(Debug, Clone)]
pub struct Message {
    pub content: Option<String>,
    pub embeds: Vec<Embed>,
}

/// A Discord embed.
#[derive(Debug, Clone)]
pub struct Embed {
    pub title: Option<String>,
    pub description: Option<String>,
    pub color: Option<u32>,
    pub fields: Vec<EmbedField>,
    pub footer: Option<EmbedFooter>,
    pub timestamp: Option<String>,
}

/// A named value shown in an embed.
#[derive(Debug, Clone)]
pub struct EmbedField {
    pub name: String,
    pub value: String,
    pub inline: bool,
}

/// The footer line of an embed.
#[derive(Debug, Clone)]
pub struct EmbedFooter {
    pub text: String,
}

/// Builds a [`Message`] step by step.
pub struct MessageBuilder {
    content: Option<String>,
    embeds: Vec<Embed>,
}

impl MessageBuilder {
    pub closed spec fn spec_content(&self) -> Option<String> {
        self.content
    }

    pub closed spec fn spec_embeds(&self) -> Seq<Embed> {
        self.embeds@
    }

    /// A builder with no text and no embeds.
    pub fn new() -> (b: MessageBuilder)
        ensures
            b.spec_content() is None,
            b.spec_embeds().len() == 0,
    {
        MessageBuilder { content: None, embeds: Vec::new() }
    }

    /// Sets the text of the message.
    pub fn content(self, content: String) -> (b: MessageBuilder)
        ensures
            b.spec_content() == Some(content),
            b.spec_embeds() == self.spec_embeds(),
    {
        MessageBuilder { content: Some(content), embeds: self.embeds }
    }

    /// Appends an embed.
    pub fn add_embed(self, embed: Embed) -> (b: MessageBuilder)
        ensures
            b.spec_content() == self.spec_content(),
            b.spec_embeds() == self.spec_embeds().push(embed),
    {
        let mut embeds = self.embeds;
        embeds.push(embed);
        MessageBuilder { content: self.content, embeds }
    }

    /// The message built so far.
    pub fn build(self) -> (m: Message)
        ensures
            m.content == self.spec_content(),
            m.embeds@ == self.spec_embeds(),
    {
        Message { content: self.content, embeds: self.embeds }
    }
}

/// One call on a [`MessageBuilder`]: `content(text)` or `add_embed(embed)`.
pub enum BuildStep {
    Content(String),
    AddEmbed(Embed),
}

/// `after` is what the builder call `step` on `before` returns, as the calls' contracts
/// state it.
pub open spec fn builder_step(before: MessageBuilder, step: BuildStep, after: MessageBuilder) -> bool {
    match step {
        BuildStep::Content(c) => after.spec_content() == Some(c) && after.spec_embeds()
            == before.spec_embeds(),
        BuildStep::AddEmbed(e) => after.spec_content() == before.spec_content()
            && after.spec_embeds() == before.spec_embeds().push(e),
    }
}

/// The text after a chain of calls: the last `content` call's, else the starting text.
pub open spec fn chain_content(start: Option<String>, steps: Seq<BuildStep>) -> Option<String>
    decreases steps.len(),
{
    if steps.len() == 0 {
        start
    } else {
        match steps.last() {
            BuildStep::Content(c) => Some(c),
            BuildStep::AddEmbed(_) => chain_content(start, steps.drop_last()),
        }
    }
}

/// The embeds added by a chain of calls, in call order.
pub open spec fn chain_embeds(steps: Seq<BuildStep>) -> Seq<Embed>
    decreases steps.len(),
{
    if steps.len() == 0 {
        Seq::empty()
    } else {
        match steps.last() {
            BuildStep::Content(_) => chain_embeds(steps.drop_last()),
            BuildStep::AddEmbed(e) => chain_embeds(steps.drop_last()).push(e),
        }
    }
}

/// A chain of builder calls of any length keeps every embed, once, in the order added,
/// and the text of the last `content` call (none without one): `builders[i + 1]` is the
/// builder returned by call `steps[i]` on `builders[i]`. Starting from
/// `MessageBuilder::new()`, `build` then gives exactly `chain_content(None, steps)` and
/// `chain_embeds(steps)`.
pub proof fn lemma_builder_chain(builders: Seq<MessageBuilder>, steps: Seq<BuildStep>)
    requires
        builders.len() == steps.len() + 1,
        forall|i: int| 0 <= i < steps.len() ==> builder_step(builders[i], #[trigger] steps[i], builders[i + 1]),
    ensures
        builders.last().spec_content() == chain_content(builders[0].spec_content(), steps),
        builders.last().spec_embeds() == builders[0].spec_embeds() + chain_embeds(steps),
    decreases steps.len(),
{
    if steps.len() == 0 {
        assert(builders[0].spec_embeds() + chain_embeds(steps) =~= builders[0].spec_embeds());
    } else {
        let n = steps.len() - 1;
        let bs = builders.drop_last();
        let ss = steps.drop_last();
        assert forall|i: int| 0 <= i < ss.len() implies builder_step(bs[i], #[trigger] ss[i], bs[i + 1]) by {
            assert(ss[i] == steps[i]);
            assert(builder_step(builders[i], steps[i], builders[i + 1]));
        }
        lemma_builder_chain(bs, ss);
        assert(builder_step(builders[n], steps[n], builders[n + 1]));
        assert(bs.last() == builders[n]);
        assert(builders.last() == builders[n + 1]);
        match steps.last() {
            BuildStep::Content(_) => {},
            BuildStep::AddEmbed(e) => {
                assert(builders[0].spec_embeds() + chain_embeds(ss).push(e) =~= (
                builders[0].spec_embeds() + chain_embeds(ss)).push(e));
            },
        }
    }
}

pub const COLOR_RED: u32 = 15158332;

pub const COLOR_ORANGE: u32 = 15105570;

pub const COLOR_GREEN: u32 = 3066993;

pub const COLOR_LIGHT_BLUE: u32 = 5793266;

/// Title, description and color of a temperature embed for a server shown as `server`.
pub open spec fn spec_temperature_header(evaluation: ResourceEvaluation, server: Seq<char>) -> (
    Seq<char>,
    Seq<char>,
    u32,
) {
    match evaluation {
        ResourceEvaluation::StartsToExceed => (
            "🔥 Temperature Alert"@,
            "Server **"@ + server + "** temperature has exceeded the limit!"@,
            COLOR_RED,
        ),
        ResourceEvaluation::BackToOk => (
            "✅ Temperature Recovered"@,
            "Server **"@ + server + "** temperature is back to normal"@,
            COLOR_GREEN,
        ),
        _ => (
            "🌡️ Temperature Update"@,
            "Temperature update for server **"@ + server + "**"@,
            COLOR_LIGHT_BLUE,
        ),
    }
}

/// Title, description and color of a CPU usage embed for a server shown as `server`.
pub open spec fn spec_usage_header(evaluation: ResourceEvaluation, server: Seq<char>) -> (
    Seq<char>,
    Seq<char>,
    u32,
) {
    match evaluation {
        ResourceEvaluation::StartsToExceed => (
            "⚠️ CPU Usage Alert"@,
            "Server **"@ + server + "** CPU usage has exceeded the limit!"@,
            COLOR_ORANGE,
        ),
        ResourceEvaluation::BackToOk => (
            "✅ CPU Usage Recovered"@,
            "Server **"@ + server + "** CPU usage is back to normal"@,
            COLOR_GREEN,
        ),
        _ => (
            "💻 CPU Usage Update"@,
            "CPU usage update for server **"@ + server + "**"@,
            COLOR_LIGHT_BLUE,
        ),
    }
}

fn concat3(a: &str, b: &str, c: &str) -> (s: String)
    ensures
        s@ == a@ + b@ + c@,
{
    let mut s = String::from_str(a);
    s.append(b);
    s.append(c);
    s
}

fn temperature_header(evaluation: ResourceEvaluation, server: &str) -> (r: (String, String, u32))
    ensures
        (r.0@, r.1@, r.2) == spec_temperature_header(evaluation, server@),
{
    match evaluation {
        ResourceEvaluation::StartsToExceed => (
            String::from_str("🔥 Temperature Alert"),
            concat3("Server **", server, "** temperature has exceeded the limit!"),
            COLOR_RED,
        ),
        ResourceEvaluation::BackToOk => (
            String::from_str("✅ Temperature Recovered"),
            concat3("Server **", server, "** temperature is back to normal"),
            COLOR_GREEN,
        ),
        _ => (
            String::from_str("🌡️ Temperature Update"),
            concat3("Temperature update for server **", server, "**"),
            COLOR_LIGHT_BLUE,
        ),
    }
}

fn usage_header(evaluation: ResourceEvaluation, server: &str) -> (r: (String, String, u32))
    ensures
        (r.0@, r.1@, r.2) == spec_usage_header(evaluation, server@),
{
    match evaluation {
        ResourceEvaluation::StartsToExceed => (
            String::from_str("⚠️ CPU Usage Alert"),
            concat3("Server **", server, "** CPU usage has exceeded the limit!"),
            COLOR_ORANGE,
        ),
        ResourceEvaluation::BackToOk => (
            String::from_str("✅ CPU Usage Recovered"),
            concat3("Server **", server, "** CPU usage is back to normal"),
            COLOR_GREEN,
        ),
        _ => (
            String::from_str("💻 CPU Usage Update"),
            concat3("CPU usage update for server **", server, "**"),
            COLOR_LIGHT_BLUE,
        ),
    }
}

/// The ten-cell bar of a progress indicator: `filled` full cells (at most ten), the rest
/// empty.
pub open spec fn spec_bar(filled: nat) -> Seq<char> {
    let f = if filled > 10 {
        10
    } else {
        filled
    };
    Seq::new(f, |i: int| '█') + Seq::new((10 - f) as nat, |i: int| '░')
}

/// The progress indicator of an embed: the status emoji, the bar, and the percentage
/// text (`{emoji} \`{bar}\` {percentage}% of limit`).
pub open spec fn spec_progress_bar(filled: nat, emoji: Seq<char>, percentage: Seq<char>) -> Seq<char> {
    emoji + " `"@ + spec_bar(filled) + "` "@ + percentage + "% of limit"@
}

/// Builds the progress indicator from the number of filled cells (the reading over the
/// limit, in tenths), the status emoji and the percentage text.
pub fn progress_bar(filled: usize, emoji: &str, percentage: &str) -> (s: String)
    ensures
        s@ == spec_progress_bar(filled as nat, emoji@, percentage@),
{
    let f: usize = if filled > 10 {
        10
    } else {
        filled
    };
    let mut bar = String::new();
    let mut i: usize = 0;
    while i < f
        invariant
            0 <= i <= f,
            f <= 10,
            bar@ == Seq::new(i as nat, |k: int| '█'),
        decreases f - i,
    {
        bar.push('█');
        i = i + 1;
        assert(bar@ =~= Seq::new(i as nat, |k: int| '█'));
    }
    let mut j: usize = 0;
    while j < 10 - f
        invariant
            0 <= j <= 10 - f,
            f <= 10,
            bar@ == Seq::new(f as nat, |k: int| '█') + Seq::new(j as nat, |k: int| '░'),
        decreases 10 - f - j,
    {
        bar.push('░');
        j = j + 1;
        assert(bar@ =~= Seq::new(f as nat, |k: int| '█') + Seq::new(j as nat, |k: int| '░'));
    }
    let mut s = String::from_str(emoji);
    s.append(" `");
    s.append(bar.as_str());
    s.append("` ");
    s.append(percentage);
    s.append("% of limit");
    proof {
        assert(bar@ == spec_bar(filled as nat));
    }
    s
}

/// A resource embed: title, description and color, then the current value and the
/// limit (each inline), the progress indicator, the footer `Server: {server} | {ip}` and
/// the timestamp.
pub open spec fn spec_resource_embed(
    embed: Embed,
    header: (Seq<char>, Seq<char>, u32),
    current_name: Seq<char>,
    current_value: Seq<char>,
    limit_value: Seq<char>,
    progress: Seq<char>,
    server: Seq<char>,
    ip: Seq<char>,
    timestamp: Seq<char>,
) -> bool {
    &&& embed.title matches Some(t) && t@ == header.0
    &&& embed.description matches Some(d) && d@ == header.1
    &&& embed.color == Some(header.2)
    &&& embed.fields@.len() == 3
    &&& embed.fields@[0].name@ == current_name && embed.fields@[0].value@ == current_value
        && embed.fields@[0].inline
    &&& embed.fields@[1].name@ == "⚠️ Limit"@ && embed.fields@[1].value@ == limit_value
        && embed.fields@[1].inline
    &&& embed.fields@[2].name@ == "📊 Status"@ && embed.fields@[2].value@ == progress
        && !embed.fields@[2].inline
    &&& embed.footer matches Some(f) && f.text@ == "Server: "@ + server + " | "@ + ip
    &&& embed.timestamp matches Some(ts) && ts@ == timestamp
}

fn resource_embed(
    header: (String, String, u32),
    current_name: &str,
    current_value: String,
    limit_value: String,
    progress: String,
    server: &str,
    ip: &str,
    timestamp: String,
) -> (e: Embed)
    ensures
        spec_resource_embed(
            e,
            (header.0@, header.1@, header.2),
            current_name@,
            current_value@,
            limit_value@,
            progress@,
            server@,
            ip@,
            timestamp@,
        ),
{
    let (title, description, color) = header;
    let mut fields: Vec<EmbedField> = Vec::new();
    fields.push(EmbedField { name: String::from_str(current_name), value: current_value, inline: true });
    fields.push(EmbedField { name: String::from_str("⚠️ Limit"), value: limit_value, inline: true });
    fields.push(EmbedField { name: String::from_str("📊 Status"), value: progress, inline: false });
    let mut footer = String::from_str("Server: ");
    footer.append(server);
    footer.append(" | ");
    footer.append(ip);
    Embed {
        title: Some(title),
        description: Some(description),
        color: Some(color),
        fields,
        footer: Some(EmbedFooter { text: footer }),
        timestamp: Some(timestamp),
    }
}

/// The temperature embed for a server shown as `server` with address text `ip`, from the
/// evaluation, the temperature formatted with one decimal, the limit, the progress
/// indicator and the current time as text.
pub fn build_temperature_embed(
    server: &str,
    ip: &str,
    evaluation: ResourceEvaluation,
    temperature_text: &str,
    limit: usize,
    progress: String,
    timestamp: String,
) -> (e: Embed)
    ensures
        spec_resource_embed(
            e,
            spec_temperature_header(evaluation, server@),
            "🌡️ Current Temperature"@,
            temperature_text@ + "°C"@,
            decimal(limit as nat) + "°C"@,
            progress@,
            server@,
            ip@,
            timestamp@,
        ),
{
    let header = temperature_header(evaluation, server);
    let mut current = String::from_str(temperature_text);
    current.append("°C");
    let mut limit_text = String::new();
    push_decimal(&mut limit_text, limit as u64);
    limit_text.append("°C");
    proof {
        assert(limit_text@ =~= decimal(limit as nat) + "°C"@);
    }
    resource_embed(header, "🌡️ Current Temperature", current, limit_text, progress, server, ip, timestamp)
}

/// The CPU usage embed, as [`build_temperature_embed`] with percentages.
pub fn build_usage_embed(
    server: &str,
    ip: &str,
    evaluation: ResourceEvaluation,
    usage_text: &str,
    limit: usize,
    progress: String,
    timestamp: String,
) -> (e: Embed)
    ensures
        spec_resource_embed(
            e,
            spec_usage_header(evaluation, server@),
            "💻 Current CPU Usage"@,
            usage_text@ + "%"@,
            decimal(limit as nat) + "%"@,
            progress@,
            server@,
            ip@,
            timestamp@,
        ),
{
    let header = usage_header(evaluation, server);
    let mut current = String::from_str(usage_text);
    current.append("%");
    let mut limit_text = String::new();
    push_decimal(&mut limit_text, limit as u64);
    limit_text.append("%");
    proof {
        assert(limit_text@ =~= decimal(limit as nat) + "%"@);
    }
    resource_embed(header, "💻 Current CPU Usage", current, limit_text, progress, server, ip, timestamp)
}

/// Title and color of a service embed.
pub open spec fn spec_service_header(status: ServiceStatus) -> (Seq<char>, u32) {
    match status {
        ServiceStatus::Down => ("🔴 Service Down"@, COLOR_RED),
        ServiceStatus::Degraded => ("🟠 Service Degraded"@, COLOR_ORANGE),
        ServiceStatus::Up => ("✅ Service Recovered"@, COLOR_GREEN),
    }
}

/// The embed of a service alert: title and color by status, the description
/// `Service **{name}** is {status}`, the URL, the error when one is given, and the time.
pub fn build_service_embed(
    service_name: &str,
    url: &str,
    status: ServiceStatus,
    error_message: Option<&str>,
    timestamp: String,
) -> (e: Embed)
    ensures
        e.title matches Some(t) && t@ == spec_service_header(status).0,
        e.color == Some(spec_service_header(status).1),
        e.description matches Some(d) && d@ == "Service **"@ + service_name@ + "** is "@
            + status.spec_as_str(),
        e.fields@.len() == (if error_message is Some {
            2int
        } else {
            1int
        }),
        e.fields@[0].name@ == "🌐 URL"@ && e.fields@[0].value@ == url@,
        error_message matches Some(m) ==> e.fields@[1].name@ == "❗ Error"@ && e.fields@[1].value@
            == m@,
        e.footer is None,
        e.timestamp matches Some(ts) && ts@ == timestamp@,
{
    let (title, color) = match status {
        ServiceStatus::Down => ("🔴 Service Down", COLOR_RED),
        ServiceStatus::Degraded => ("🟠 Service Degraded", COLOR_ORANGE),
        ServiceStatus::Up => ("✅ Service Recovered", COLOR_GREEN),
    };
    let mut description = String::from_str("Service **");
    description.append(service_name);
    description.append("** is ");
    description.append(status.as_str());
    let mut fields: Vec<EmbedField> = Vec::new();
    fields.push(EmbedField { name: String::from_str("🌐 URL"), value: String::from_str(url), inline: false });
    match error_message {
        Some(m) => {
            fields.push(
                EmbedField { name: String::from_str("❗ Error"), value: String::from_str(m), inline: false },
            );
        },
        None => {},
    }
    Embed {
        title: Some(String::from_str(title)),
        description: Some(description),
        color: Some(color),
        fields,
        footer: None,
        timestamp: Some(timestamp),
    }
}

} // verus!
