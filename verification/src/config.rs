//! Hub configuration: storage settings and their validation, server and service
//! configuration, and the resolution of defaults and named alert references.
use vstd::prelude::*;
use vstd::string::*;

verus! {

// ---------------------------------------------------------------------------
// Storage
// ---------------------------------------------------------------------------

/// Storage backend configuration.
#[derive(Debug, Clone)]
pub enum StorageConfig {
    /// In-memory storage, nothing is persisted.
    InMemory,
    /// A SQLite database file.
    Sqlite {
        /// Path to the database file.
        path: String,
        /// Metrics older than this many days are deleted.
        retention_days: u32,
        /// How often, in hours, the retention cleanup runs.
        cleanup_interval_hours: u32,
    },
}

/// Why a storage configuration is refused, by the bound it breaks.
pub open spec fn storage_validation_error(retention_days: u32, cleanup_interval_hours: u32) -> Option<
    Seq<char>,
> {
    if retention_days < 1 {
        Some("retention_days must be at least 1"@)
    } else if retention_days > 3650 {
        Some("retention_days cannot exceed 3650 (10 years)"@)
    } else if cleanup_interval_hours < 1 {
        Some("cleanup_interval_hours must be at least 1"@)
    } else if cleanup_interval_hours > 720 {
        Some("cleanup_interval_hours cannot exceed 720 (30 days)"@)
    } else {
        None
    }
}

impl StorageConfig {
    pub open spec fn spec_validation_error(&self) -> Option<Seq<char>> {
        match self {
            StorageConfig::InMemory => None,
            StorageConfig::Sqlite { retention_days, cleanup_interval_hours, .. } =>
                storage_validation_error(*retention_days, *cleanup_interval_hours),
        }
    }

    /// Validates the storage parameters: retention between 1 and 3650 days, cleanup
    /// interval between 1 and 720 hours. In-memory storage is always valid.
    pub fn validate(&self) -> (r: Result<(), String>)
        ensures
            r is Ok <==> self.spec_validation_error() is None,
            r matches Err(msg) ==> self.spec_validation_error() == Some(msg@),
    {
        match self {
            StorageConfig::InMemory => Ok(()),
            StorageConfig::Sqlite { retention_days, cleanup_interval_hours, .. } => {
                if *retention_days < 1 {
                    return Err(String::from_str("retention_days must be at least 1"));
                }
                if *retention_days > 3650 {
                    return Err(String::from_str("retention_days cannot exceed 3650 (10 years)"));
                }
                if *cleanup_interval_hours < 1 {
                    return Err(String::from_str("cleanup_interval_hours must be at least 1"));
                }
                if *cleanup_interval_hours > 720 {
                    return Err(
                        String::from_str("cleanup_interval_hours cannot exceed 720 (30 days)"),
                    );
                }
                Ok(())
            },
        }
    }

    /// Whether the cleanup interval is longer than the retention period (a configuration
    /// that lets old data accumulate between cleanups).
    pub fn cleanup_outlasts_retention(&self) -> (b: bool)
        ensures
            b == (match self {
                StorageConfig::InMemory => false,
                StorageConfig::Sqlite { retention_days, cleanup_interval_hours, .. } =>
                    *cleanup_interval_hours > *retention_days * 24,
            }),
    {
        match self {
            StorageConfig::InMemory => false,
            StorageConfig::Sqlite { retention_days, cleanup_interval_hours, .. } => {
                let retention_hours: u64 = *retention_days as u64 * 24;
                (*cleanup_interval_hours as u64) > retention_hours
            },
        }
    }
}

impl Default for StorageConfig {
    fn default() -> (r: Self)
        ensures
            r matches StorageConfig::Sqlite { path, retention_days, cleanup_interval_hours }
                && path@ == "./metrics.db"@ && retention_days == 30 && cleanup_interval_hours
                == 24,
    {
        StorageConfig::Sqlite {
            path: default_sqlite_path(),
            retention_days: default_retention_days(),
            cleanup_interval_hours: default_cleanup_interval_hours(),
        }
    }
}

/// Default database file.
pub fn default_sqlite_path() -> (p: String)
    ensures
        p@ == "./metrics.db"@,
{
    String::from_str("./metrics.db")
}

/// Default retention period in days.
pub fn default_retention_days() -> (d: u32)
    ensures
        d == 30,
{
    30
}

/// Default cleanup interval in hours.
pub fn default_cleanup_interval_hours() -> (h: u32)
    ensures
        h == 24,
{
    24
}

/// Default bind address of the API server.
pub fn default_api_bind() -> (b: String)
    ensures
        b@ == "127.0.0.1"@,
{
    String::from_str("127.0.0.1")
}

/// Default port of the API server.
pub fn default_api_port() -> (p: u16)
    ensures
        p == 8080,
{
    8080
}

/// CORS is enabled by default.
pub fn default_api_cors() -> (b: bool)
    ensures
        b,
{
    true
}

/// Default service check interval in seconds.
pub fn default_service_interval() -> (s: usize)
    ensures
        s == 60,
{
    60
}

/// Default service request timeout in seconds.
pub fn default_service_timeout() -> (s: usize)
    ensures
        s == 10,
{
    10
}

/// Default server polling interval in seconds.
pub fn default_interval() -> (s: usize)
    ensures
        s == 15,
{
    15
}

// ---------------------------------------------------------------------------
// Alerts, limits, servers, services
// ---------------------------------------------------------------------------

/// A webhook alert target.
#[derive(Debug, Clone)]
pub struct Webhook {
    pub url: String,
}

/// A Discord alert target, optionally mentioning a user.
#[derive(Debug, Clone)]
pub struct Discord {
    pub url: String,
    pub user_id: Option<String>,
}

/// Where an alert is sent.
#[derive(Debug, Clone)]
pub enum Alert {
    Discord(Discord),
    Webhook(Webhook),
}

pub fn copy_string(s: &String) -> (r: String)
    ensures
        r == *s,
{
    s.clone()
}

pub fn copy_opt_string(s: &Option<String>) -> (r: Option<String>)
    ensures
        r == *s,
{
    match s {
        Some(v) => Some(v.clone()),
        None => None,
    }
}

impl Alert {
    /// An identical copy of this alert target.
    pub fn duplicate(&self) -> (r: Alert)
        ensures
            r == *self,
    {
        match self {
            Alert::Discord(d) => Alert::Discord(
                Discord { url: copy_string(&d.url), user_id: copy_opt_string(&d.user_id) },
            ),
            Alert::Webhook(w) => Alert::Webhook(Webhook { url: copy_string(&w.url) }),
        }
    }
}

/// A threshold on one resource: the limit, the grace period (number of consecutive
/// readings at/above the limit tolerated before alerting), and the name of the alert to use.
#[derive(Debug, Clone)]
pub struct Limit {
    pub limit: usize,
    pub grace: Option<usize>,
    pub alert: Option<String>,
}

impl Limit {
    pub fn duplicate(&self) -> (r: Limit)
        ensures
            r == *self,
    {
        Limit { limit: self.limit, grace: self.grace, alert: copy_opt_string(&self.alert) }
    }
}

/// Thresholds on temperature and CPU usage.
#[derive(Debug, Clone)]
pub struct Limits {
    pub temperature: Option<Limit>,
    pub usage: Option<Limit>,
}

pub fn copy_opt_limit(l: &Option<Limit>) -> (r: Option<Limit>)
    ensures
        r == *l,
{
    match l {
        Some(v) => Some(v.duplicate()),
        None => None,
    }
}

impl Limits {
    pub fn duplicate(&self) -> (r: Limits)
        ensures
            r == *self,
    {
        Limits {
            temperature: copy_opt_limit(&self.temperature),
            usage: copy_opt_limit(&self.usage),
        }
    }
}

/// HTTP method of a service check.
#[derive(Debug, Clone, Copy, PartialEq, Eq, Structural)]
pub enum HttpMethod {
    Get,
    Post,
    Head,
}

impl Default for HttpMethod {
    fn default() -> (m: Self)
        ensures
            m == HttpMethod::Get,
    {
        HttpMethod::Get
    }
}

/// A monitored server. `ip` is the textual form of the server's IP address. Without
/// an interval of its own the server polls at the default interval.
#[derive(Debug, Clone)]
pub struct ServerConfig {
    pub ip: String,
    pub display: Option<String>,
    pub port: u16,
    pub interval: Option<usize>,
    pub token: Option<String>,
    pub limits: Option<Limits>,
}

/// A monitored HTTP/HTTPS service.
#[derive(Debug, Clone)]
pub struct ServiceConfig {
    pub name: String,
    pub url: String,
    /// Check interval in seconds; the default's when absent.
    pub interval: Option<usize>,
    /// Request timeout in seconds; the default's when absent.
    pub timeout: Option<usize>,
    pub method: HttpMethod,
    /// Status codes counted as success; any 2xx when absent.
    pub expected_status: Option<Vec<u16>>,
    /// Pattern the response body must match.
    pub body_pattern: Option<String>,
    /// Consecutive failures tolerated before alerting.
    pub grace: Option<usize>,
    /// Name of the alert to use.
    pub alert: Option<String>,
}

/// Defaults for servers.
#[derive(Debug, Clone)]
pub struct DefaultServerConfig {
    pub interval: Option<usize>,
    pub limits: Option<Limits>,
}

/// Defaults for services.
#[derive(Debug, Clone)]
pub struct DefaultServiceConfig {
    pub interval: Option<usize>,
    pub timeout: Option<usize>,
    pub grace: Option<usize>,
    pub alert: Option<String>,
}

/// Defaults for servers and services.
#[derive(Debug, Clone)]
pub struct DefaultConfig {
    pub server: Option<DefaultServerConfig>,
    pub service: Option<DefaultServiceConfig>,
}

/// API server configuration.
#[derive(Debug, Clone)]
pub struct ApiConfig {
    pub bind: String,
    pub port: u16,
    pub auth_token: Option<String>,
    pub enable_cors: bool,
}

/// The whole hub configuration. `alerts` is the registry of named alerts, as
/// (name, alert) entries with distinct names.
#[derive(Debug, Clone)]
pub struct Config {
    pub alerts: Option<Vec<(String, Alert)>>,
    pub defaults: Option<DefaultConfig>,
    pub servers: Option<Vec<ServerConfig>>,
    pub storage: Option<StorageConfig>,
    pub services: Option<Vec<ServiceConfig>>,
    pub api: Option<ApiConfig>,
}

/// A limit whose alert reference has been replaced by the alert it names.
#[derive(Debug, Clone)]
pub struct ResolvedLimit {
    pub limit: usize,
    pub grace: Option<usize>,
    pub alert: Option<Alert>,
}

/// Resolved thresholds on temperature and CPU usage.
#[derive(Debug, Clone)]
pub struct ResolvedLimits {
    pub temperature: Option<ResolvedLimit>,
    pub usage: Option<ResolvedLimit>,
}

/// A server with its defaults merged and its alerts resolved.
#[derive(Debug, Clone)]
pub struct ResolvedServerConfig {
    pub ip: String,
    pub display: Option<String>,
    pub port: u16,
    pub interval: usize,
    pub token: Option<String>,
    pub limits: Option<ResolvedLimits>,
}

/// A service with its defaults merged and its alert resolved.
#[derive(Debug, Clone)]
pub struct ResolvedServiceConfig {
    pub name: String,
    pub url: String,
    pub interval: usize,
    pub timeout: usize,
    pub method: HttpMethod,
    pub expected_status: Option<Vec<u16>>,
    pub body_pattern: Option<String>,
    pub grace: Option<usize>,
    pub alert: Option<Alert>,
}

/// The configuration after resolution.
#[derive(Debug, Clone)]
pub struct ResolvedConfig {
    pub servers: Vec<ResolvedServerConfig>,
    pub services: Vec<ResolvedServiceConfig>,
    pub storage: Option<StorageConfig>,
    pub api: Option<ApiConfig>,
}

/// Why a configuration cannot be resolved; each carries the alert name referenced.
#[derive(Debug, Clone)]
pub enum ConfigError {
    /// An alert is referenced but the configuration defines no alert registry.
    NoAlertRegistry(String),
    /// An alert is referenced that the registry does not hold.
    AlertNotFound(String),
}

impl ConfigError {
    pub open spec fn spec_message(&self) -> Seq<char> {
        match self {
            ConfigError::NoAlertRegistry(name) => "Alert '"@ + name@
                + "' referenced but no alerts registry defined"@,
            ConfigError::AlertNotFound(name) => "Alert '"@ + name@ + "' not found in registry"@,
        }
    }

    /// The human-readable description of the error.
    pub fn message(&self) -> (m: String)
        ensures
            m@ == self.spec_message(),
    {
        let mut m = String::from_str("Alert '");
        match self {
            ConfigError::NoAlertRegistry(name) => {
                m.append(name.as_str());
                m.append("' referenced but no alerts registry defined");
            },
            ConfigError::AlertNotFound(name) => {
                m.append(name.as_str());
                m.append("' not found in registry");
            },
        }
        m
    }
}

// ---------------------------------------------------------------------------
// Resolution
// ---------------------------------------------------------------------------

/// The first alert in the registry with the given name.
pub open spec fn lookup_alert(registry: Seq<(String, Alert)>, name: Seq<char>) -> Option<Alert>
    decreases registry.len(),
{
    if registry.len() == 0 {
        None
    } else if registry[0].0@ == name {
        Some(registry[0].1)
    } else {
        lookup_alert(registry.drop_first(), name)
    }
}

/// No two entries of a registry share a name, as in a map keyed by alert name.
pub open spec fn distinct_names(registry: Seq<(String, Alert)>) -> bool {
    forall|i: int, j: int|
        0 <= i < j < registry.len() ==> #[trigger] registry[i].0@ != #[trigger] registry[j].0@
}

/// Whether no two entries of a registry share a name.
pub fn has_distinct_names(registry: &Vec<(String, Alert)>) -> (b: bool)
    ensures
        b == distinct_names(registry@),
{
    let n = registry.len();
    let mut i: usize = 0;
    while i < n
        invariant
            0 <= i <= n,
            n == registry@.len(),
            forall|a: int, b: int|
                0 <= a < i && a < b < n ==> #[trigger] registry@[a].0@ != #[trigger] registry@[b].0@,
        decreases n - i,
    {
        let mut j: usize = i + 1;
        while j < n
            invariant
                0 <= i < n,
                i + 1 <= j <= n,
                n == registry@.len(),
                forall|a: int, b: int|
                    0 <= a < i && a < b < n ==> #[trigger] registry@[a].0@ != #[trigger] registry@[b].0@,
                forall|b: int| i < b < j ==> registry@[i as int].0@ != #[trigger] registry@[b].0@,
            decreases n - j,
        {
            if registry[i].0 == registry[j].0 {
                assert(registry@[i as int].0@ == registry@[j as int].0@);
                return false;
            }
            j = j + 1;
        }
        i = i + 1;
    }
    true
}

/// In a registry with distinct names, looking up an entry's name gives that entry's
/// alert, and a name no entry has gives nothing: the registry behaves as a map.
pub proof fn lemma_registry_is_a_map(registry: Seq<(String, Alert)>, name: Seq<char>)
    requires
        distinct_names(registry),
    ensures
        forall|i: int| 0 <= i < registry.len() && #[trigger] registry[i].0@ == name
            ==> lookup_alert(registry, name) == Some(registry[i].1),
        (forall|i: int| 0 <= i < registry.len() ==> #[trigger] registry[i].0@ != name)
            ==> lookup_alert(registry, name) is None,
    decreases registry.len(),
{
    if registry.len() > 0 {
        let rest = registry.drop_first();
        assert(distinct_names(rest)) by {
            assert forall|i: int, j: int| 0 <= i < j < rest.len() implies #[trigger] rest[i].0@
                != #[trigger] rest[j].0@ by {
                assert(rest[i] == registry[i + 1]);
                assert(rest[j] == registry[j + 1]);
            }
        }
        lemma_registry_is_a_map(rest, name);
        assert forall|i: int| 0 <= i < registry.len() && #[trigger] registry[i].0@ == name
            implies lookup_alert(registry, name) == Some(registry[i].1) by {
            if i > 0 {
                assert(registry[0].0@ != registry[i].0@);
                assert(rest[i - 1] == registry[i]);
            }
        }
        if forall|i: int| 0 <= i < registry.len() ==> #[trigger] registry[i].0@ != name {
            assert forall|i: int| 0 <= i < rest.len() implies #[trigger] rest[i].0@ != name by {
                assert(rest[i] == registry[i + 1]);
            }
        }
    }
}

pub open spec fn registry_view(registry: Option<Vec<(String, Alert)>>) -> Option<
    Seq<(String, Alert)>,
> {
    match registry {
        Some(v) => Some(v@),
        None => None,
    }
}

/// The alert an optional alert name refers to.
pub open spec fn spec_resolve_alert(
    registry: Option<Seq<(String, Alert)>>,
    name: Option<String>,
) -> Result<Option<Alert>, ConfigError> {
    match name {
        None => Ok(None),
        Some(n) => match registry {
            None => Err(ConfigError::NoAlertRegistry(n)),
            Some(r) => match lookup_alert(r, n@) {
                Some(a) => Ok(Some(a)),
                None => Err(ConfigError::AlertNotFound(n)),
            },
        },
    }
}

pub open spec fn or_else<T>(first: Option<T>, second: Option<T>) -> Option<T> {
    match first {
        Some(v) => Some(v),
        None => second,
    }
}

/// A numeric setting: the item's own value, else the configured default, else the
/// built-in fallback.
pub open spec fn setting(own: Option<usize>, default: Option<usize>, fallback: usize) -> usize {
    match or_else(own, default) {
        Some(v) => v,
        None => fallback,
    }
}

pub open spec fn server_default_limits(d: Option<DefaultServerConfig>) -> Option<Limits> {
    match d {
        Some(v) => v.limits,
        None => None,
    }
}

pub open spec fn server_default_interval(d: Option<DefaultServerConfig>) -> Option<usize> {
    match d {
        Some(v) => v.interval,
        None => None,
    }
}

/// One resolved limit from a server's own limit and the default limit: the server's
/// limit value wins; its grace and alert fall back to the default's.
pub open spec fn spec_resolve_limit(
    registry: Option<Seq<(String, Alert)>>,
    own: Option<Limit>,
    default: Option<Limit>,
) -> Result<Option<ResolvedLimit>, ConfigError> {
    match (own, default) {
        (Some(s), Some(d)) => match spec_resolve_alert(registry, or_else(s.alert, d.alert)) {
            Ok(a) => Ok(Some(ResolvedLimit { limit: s.limit, grace: or_else(s.grace, d.grace), alert: a })),
            Err(e) => Err(e),
        },
        (Some(s), None) => match spec_resolve_alert(registry, s.alert) {
            Ok(a) => Ok(Some(ResolvedLimit { limit: s.limit, grace: s.grace, alert: a })),
            Err(e) => Err(e),
        },
        (None, Some(d)) => match spec_resolve_alert(registry, d.alert) {
            Ok(a) => Ok(Some(ResolvedLimit { limit: d.limit, grace: d.grace, alert: a })),
            Err(e) => Err(e),
        },
        (None, None) => Ok(None),
    }
}

pub open spec fn limit_alert_name(l: Option<Limit>) -> Option<String> {
    match l {
        Some(v) => v.alert,
        None => None,
    }
}

pub open spec fn limit_grace_setting(l: Option<Limit>) -> Option<usize> {
    match l {
        Some(v) => v.grace,
        None => None,
    }
}

/// A registry lookup finds the first entry with the name, and finds nothing only when no
/// entry has it.
pub proof fn lemma_lookup_alert_entry(registry: Seq<(String, Alert)>, name: Seq<char>)
    ensures
        lookup_alert(registry, name) matches Some(a) ==> exists|i: int|
            0 <= i < registry.len() && #[trigger] registry[i].0@ == name && registry[i].1 == a,
        lookup_alert(registry, name) is None ==> forall|i: int|
            0 <= i < registry.len() ==> #[trigger] registry[i].0@ != name,
    decreases registry.len(),
{
    if registry.len() > 0 {
        let rest = registry.drop_first();
        lemma_lookup_alert_entry(rest, name);
        if registry[0].0@ == name {
            assert(registry[0].0@ == name);
        } else {
            if let Some(a) = lookup_alert(rest, name) {
                let i = choose|i: int| 0 <= i < rest.len() && #[trigger] rest[i].0@ == name && rest[i].1 == a;
                assert(registry[i + 1] == rest[i]);
            } else {
                assert forall|i: int| 0 <= i < registry.len() implies #[trigger] registry[i].0@ != name by {
                    if i > 0 {
                        assert(registry[i] == rest[i - 1]);
                    }
                }
            }
        }
    }
}

/// A resolved limit takes the server's own limit value (else the default's), its own grace
/// (else the default's), and as alert the registry entry named by its own alert name, else
/// by the default's; without either name it has no alert. Resolution fails exactly when a
/// name is given that the registry (or a missing registry) cannot supply.
pub proof fn lemma_resolved_limit(
    registry: Option<Seq<(String, Alert)>>,
    own: Option<Limit>,
    default: Option<Limit>,
)
    ensures
        ({
            let name = or_else(limit_alert_name(own), limit_alert_name(default));
            match spec_resolve_limit(registry, own, default) {
                Ok(Some(r)) => {
                    &&& own matches Some(s) ==> r.limit == s.limit
                    &&& own is None ==> (default matches Some(d) && r.limit == d.limit)
                    &&& r.grace == or_else(limit_grace_setting(own), limit_grace_setting(default))
                    &&& name is None ==> r.alert is None
                    &&& name matches Some(n) ==> (registry matches Some(reg) && r.alert matches Some(a)
                        && exists|i: int| 0 <= i < reg.len() && #[trigger] reg[i].0@ == n@ && reg[i].1 == a)
                },
                Ok(None) => own is None && default is None,
                Err(e) => name matches Some(n) && match registry {
                    None => e == ConfigError::NoAlertRegistry(n),
                    Some(reg) => e == ConfigError::AlertNotFound(n) && forall|i: int|
                        0 <= i < reg.len() ==> #[trigger] reg[i].0@ != n@,
                },
            }
        }),
{
    let name = or_else(limit_alert_name(own), limit_alert_name(default));
    if let (Some(n), Some(reg)) = (name, registry) {
        lemma_lookup_alert_entry(reg, n@);
    }
}

pub open spec fn limits_temperature(l: Option<Limits>) -> Option<Limit> {
    match l {
        Some(v) => v.temperature,
        None => None,
    }
}

pub open spec fn limits_usage(l: Option<Limits>) -> Option<Limit> {
    match l {
        Some(v) => v.usage,
        None => None,
    }
}

/// A server's resolved limits: absent when neither the server nor the defaults have
/// limits; otherwise temperature and usage resolved one by one (temperature first).
pub open spec fn spec_resolve_limits(
    registry: Option<Seq<(String, Alert)>>,
    own: Option<Limits>,
    default: Option<Limits>,
) -> Result<Option<ResolvedLimits>, ConfigError> {
    if own is None && default is None {
        Ok(None)
    } else {
        match spec_resolve_limit(registry, limits_temperature(own), limits_temperature(default)) {
            Err(e) => Err(e),
            Ok(t) => match spec_resolve_limit(registry, limits_usage(own), limits_usage(default)) {
                Err(e) => Err(e),
                Ok(u) => Ok(Some(ResolvedLimits { temperature: t, usage: u })),
            },
        }
    }
}

/// A server resolved: its limits merged with the default limits, its interval its own,
/// else the default's, else 15 seconds.
pub open spec fn spec_resolve_server(
    registry: Option<Seq<(String, Alert)>>,
    server: ServerConfig,
    default: Option<DefaultServerConfig>,
) -> Result<ResolvedServerConfig, ConfigError> {
    match spec_resolve_limits(registry, server.limits, server_default_limits(default)) {
        Err(e) => Err(e),
        Ok(limits) => Ok(
            ResolvedServerConfig {
                ip: server.ip,
                display: server.display,
                port: server.port,
                interval: setting(server.interval, server_default_interval(default), 15),
                token: server.token,
                limits,
            },
        ),
    }
}

/// Servers resolved in order; the first failure is the result.
pub open spec fn spec_resolve_servers(
    registry: Option<Seq<(String, Alert)>>,
    servers: Seq<ServerConfig>,
    default: Option<DefaultServerConfig>,
) -> Result<Seq<ResolvedServerConfig>, ConfigError>
    decreases servers.len(),
{
    if servers.len() == 0 {
        Ok(Seq::empty())
    } else {
        match spec_resolve_servers(registry, servers.drop_last(), default) {
            Err(e) => Err(e),
            Ok(prefix) => match spec_resolve_server(registry, servers.last(), default) {
                Err(e) => Err(e),
                Ok(s) => Ok(prefix.push(s)),
            },
        }
    }
}

pub open spec fn default_service_alert(d: Option<DefaultServiceConfig>) -> Option<String> {
    match d {
        Some(v) => v.alert,
        None => None,
    }
}

pub open spec fn default_service_grace(d: Option<DefaultServiceConfig>) -> Option<usize> {
    match d {
        Some(v) => v.grace,
        None => None,
    }
}

pub open spec fn default_service_interval_of(d: Option<DefaultServiceConfig>) -> Option<usize> {
    match d {
        Some(v) => v.interval,
        None => None,
    }
}

pub open spec fn default_service_timeout_of(d: Option<DefaultServiceConfig>) -> Option<usize> {
    match d {
        Some(v) => v.timeout,
        None => None,
    }
}

/// A service resolved: its alert name (or the default's) replaced by the alert, its grace
/// falling back to the default's, its interval and timeout its own, else the default's,
/// else 60 and 10 seconds.
pub open spec fn spec_resolve_service(
    registry: Option<Seq<(String, Alert)>>,
    service: ServiceConfig,
    default: Option<DefaultServiceConfig>,
) -> Result<ResolvedServiceConfig, ConfigError> {
    match spec_resolve_alert(registry, or_else(service.alert, default_service_alert(default))) {
        Err(e) => Err(e),
        Ok(alert) => Ok(
            ResolvedServiceConfig {
                name: service.name,
                url: service.url,
                interval: setting(service.interval, default_service_interval_of(default), 60),
                timeout: setting(service.timeout, default_service_timeout_of(default), 10),
                method: service.method,
                expected_status: service.expected_status,
                body_pattern: service.body_pattern,
                grace: or_else(service.grace, default_service_grace(default)),
                alert,
            },
        ),
    }
}

pub open spec fn spec_resolve_services(
    registry: Option<Seq<(String, Alert)>>,
    services: Seq<ServiceConfig>,
    default: Option<DefaultServiceConfig>,
) -> Result<Seq<ResolvedServiceConfig>, ConfigError>
    decreases services.len(),
{
    if services.len() == 0 {
        Ok(Seq::empty())
    } else {
        match spec_resolve_services(registry, services.drop_last(), default) {
            Err(e) => Err(e),
            Ok(prefix) => match spec_resolve_service(registry, services.last(), default) {
                Err(e) => Err(e),
                Ok(s) => Ok(prefix.push(s)),
            },
        }
    }
}

/// Servers inherit the default interval unless they set their own, and fall back to
/// 15 seconds when neither is set.
pub proof fn lemma_server_interval_inherited(
    registry: Option<Seq<(String, Alert)>>,
    server: ServerConfig,
    default: Option<DefaultServerConfig>,
)
    ensures
        spec_resolve_server(registry, server, default) matches Ok(r) ==> {
            &&& server.interval matches Some(own) ==> r.interval == own
            &&& (server.interval is None && server_default_interval(default) is Some)
                ==> r.interval == server_default_interval(default)->0
            &&& (server.interval is None && server_default_interval(default) is None)
                ==> r.interval == 15
        },
{
}

/// Services inherit the default interval and timeout unless they set their own, and fall
/// back to 60 and 10 seconds when neither is set.
pub proof fn lemma_service_timing_inherited(
    registry: Option<Seq<(String, Alert)>>,
    service: ServiceConfig,
    default: Option<DefaultServiceConfig>,
)
    ensures
        spec_resolve_service(registry, service, default) matches Ok(r) ==> {
            &&& r.interval == setting(service.interval, default_service_interval_of(default), 60)
            &&& r.timeout == setting(service.timeout, default_service_timeout_of(default), 10)
            &&& service.interval matches Some(own) ==> r.interval == own
            &&& (service.interval is None && default_service_interval_of(default) is Some)
                ==> r.interval == default_service_interval_of(default)->0
            &&& service.timeout matches Some(own) ==> r.timeout == own
            &&& (service.timeout is None && default_service_timeout_of(default) is Some)
                ==> r.timeout == default_service_timeout_of(default)->0
        },
{
}

pub open spec fn default_server(d: Option<DefaultConfig>) -> Option<DefaultServerConfig> {
    match d {
        Some(v) => v.server,
        None => None,
    }
}

pub open spec fn default_service(d: Option<DefaultConfig>) -> Option<DefaultServiceConfig> {
    match d {
        Some(v) => v.service,
        None => None,
    }
}

pub open spec fn vec_or_empty<T>(v: Option<Vec<T>>) -> Seq<T> {
    match v {
        Some(v) => v@,
        None => Seq::empty(),
    }
}

impl Config {
    /// The result of resolving this configuration: all servers, then all services, the
    /// first failing alert reference deciding the error.
    pub open spec fn spec_resolve(self) -> Result<
        (Seq<ResolvedServerConfig>, Seq<ResolvedServiceConfig>),
        ConfigError,
    > {
        let registry = registry_view(self.alerts);
        match spec_resolve_servers(
            registry,
            vec_or_empty(self.servers),
            default_server(self.defaults),
        ) {
            Err(e) => Err(e),
            Ok(servers) => match spec_resolve_services(
                registry,
                vec_or_empty(self.services),
                default_service(self.defaults),
            ) {
                Err(e) => Err(e),
                Ok(services) => Ok((servers, services)),
            },
        }
    }

    /// Merges defaults into every server and service and replaces alert names by the
    /// alerts the registry holds under them. Storage and API settings are kept as they are.
    pub fn resolve(self) -> (r: Result<ResolvedConfig, ConfigError>)
        ensures
            match (r, self.spec_resolve()) {
                (Ok(c), Ok((servers, services))) => c.servers@ == servers && c.services@
                    == services && c.storage == self.storage && c.api == self.api,
                (Err(e), Err(e2)) => e == e2,
                _ => false,
            },
    {
        let ghost old_self = self;
        let Config { alerts, defaults, servers, storage, services, api } = self;
        let (default_srv, default_svc) = split_defaults(defaults);
        proof {
            assert(default_srv == default_server(old_self.defaults));
            assert(default_svc == default_service(old_self.defaults));
        }
        let server_list = match servers {
            Some(v) => v,
            None => Vec::new(),
        };
        let resolved_servers = match resolve_servers(&alerts, server_list, &default_srv) {
            Ok(v) => v,
            Err(e) => {
                return Err(e);
            },
        };
        let service_list = match services {
            Some(v) => v,
            None => Vec::new(),
        };
        let resolved_services = match resolve_services(&alerts, service_list, &default_svc) {
            Ok(v) => v,
            Err(e) => {
                return Err(e);
            },
        };
        Ok(ResolvedConfig { servers: resolved_servers, services: resolved_services, storage, api })
    }
}

fn split_defaults(defaults: Option<DefaultConfig>) -> (r: (
    Option<DefaultServerConfig>,
    Option<DefaultServiceConfig>,
))
    ensures
        r.0 == default_server(defaults),
        r.1 == default_service(defaults),
{
    match defaults {
        Some(d) => {
            let DefaultConfig { server, service } = d;
            (server, service)
        },
        None => (None, None),
    }
}

/// A numeric setting: the item's own value, else the default's, else the fallback.
pub fn setting_or(own: Option<usize>, default: Option<usize>, fallback: usize) -> (r: usize)
    ensures
        r == setting(own, default, fallback),
{
    match own {
        Some(v) => v,
        None => match default {
            Some(v) => v,
            None => fallback,
        },
    }
}

/// Looks up an alert by name in the registry.
pub fn find_alert(registry: &Vec<(String, Alert)>, name: &String) -> (r: Option<Alert>)
    ensures
        r == lookup_alert(registry@, name@),
{
    let mut i: usize = 0;
    assert(registry@.skip(0) =~= registry@);
    while i < registry.len()
        invariant
            0 <= i <= registry@.len(),
            lookup_alert(registry@, name@) == lookup_alert(registry@.skip(i as int), name@),
        decreases registry@.len() - i,
    {
        let ghost rest = registry@.skip(i as int);
        assert(rest.drop_first() =~= registry@.skip(i + 1));
        assert(rest[0] == registry@[i as int]);
        if registry[i].0 == *name {
            return Some(registry[i].1.duplicate());
        }
        i = i + 1;
    }
    None
}

/// Replaces an optional alert name by the alert it names.
pub fn resolve_alert(registry: &Option<Vec<(String, Alert)>>, name: Option<String>) -> (r: Result<
    Option<Alert>,
    ConfigError,
>)
    ensures
        r == spec_resolve_alert(registry_view(*registry), name),
{
    match name {
        None => Ok(None),
        Some(n) => match registry {
            None => Err(ConfigError::NoAlertRegistry(n)),
            Some(reg) => match find_alert(reg, &n) {
                Some(a) => Ok(Some(a)),
                None => Err(ConfigError::AlertNotFound(n)),
            },
        },
    }
}

fn first_of<T>(first: Option<T>, second: Option<T>) -> (r: Option<T>)
    ensures
        r == or_else(first, second),
{
    match first {
        Some(v) => Some(v),
        None => second,
    }
}

/// Resolves one limit from the server's own limit and the default limit.
pub fn resolve_limit(
    registry: &Option<Vec<(String, Alert)>>,
    own: Option<Limit>,
    default: Option<Limit>,
) -> (r: Result<Option<ResolvedLimit>, ConfigError>)
    ensures
        r == spec_resolve_limit(registry_view(*registry), own, default),
{
    match (own, default) {
        (Some(s), Some(d)) => {
            let alert = resolve_alert(registry, first_of(s.alert, d.alert))?;
            Ok(Some(ResolvedLimit { limit: s.limit, grace: first_of(s.grace, d.grace), alert }))
        },
        (Some(s), None) => {
            let alert = resolve_alert(registry, s.alert)?;
            Ok(Some(ResolvedLimit { limit: s.limit, grace: s.grace, alert }))
        },
        (None, Some(d)) => {
            let alert = resolve_alert(registry, d.alert)?;
            Ok(Some(ResolvedLimit { limit: d.limit, grace: d.grace, alert }))
        },
        (None, None) => Ok(None),
    }
}

/// Resolves a server's limits against the default limits.
pub fn resolve_limits(
    registry: &Option<Vec<(String, Alert)>>,
    own: Option<Limits>,
    default: Option<Limits>,
) -> (r: Result<Option<ResolvedLimits>, ConfigError>)
    ensures
        r == spec_resolve_limits(registry_view(*registry), own, default),
{
    if own.is_none() && default.is_none() {
        return Ok(None);
    }
    let (own_t, own_u) = match own {
        Some(l) => (l.temperature, l.usage),
        None => (None, None),
    };
    let (def_t, def_u) = match default {
        Some(l) => (l.temperature, l.usage),
        None => (None, None),
    };
    let temperature = resolve_limit(registry, own_t, def_t)?;
    let usage = resolve_limit(registry, own_u, def_u)?;
    Ok(Some(ResolvedLimits { temperature, usage }))
}

fn resolve_servers(
    registry: &Option<Vec<(String, Alert)>>,
    servers: Vec<ServerConfig>,
    default: &Option<DefaultServerConfig>,
) -> (r: Result<Vec<ResolvedServerConfig>, ConfigError>)
    ensures
        match (r, spec_resolve_servers(registry_view(*registry), servers@, *default)) {
            (Ok(v), Ok(s)) => v@ == s,
            (Err(e), Err(e2)) => e == e2,
            _ => false,
        },
{
    let ghost all = servers@;
    let ghost reg = registry_view(*registry);
    let mut out: Vec<ResolvedServerConfig> = Vec::new();
    let mut rest = servers;
    let ghost n = all.len();
    assert(spec_resolve_servers(reg, all.take(0), *default) == Ok::<
        Seq<ResolvedServerConfig>,
        ConfigError,
    >(Seq::empty())) by {
        assert(all.take(0).len() == 0);
    }
    let (default_limits, default_interval) = match default {
        Some(d) => (&d.limits, d.interval),
        None => (&None, None),
    };
    while rest.len() > 0
        invariant
            n == all.len(),
            rest@.len() <= n,
            rest@ == all.skip(n - rest@.len()),
            spec_resolve_servers(reg, all.take(n - rest@.len()), *default) == Ok::<
                Seq<ResolvedServerConfig>,
                ConfigError,
            >(out@),
            reg == registry_view(*registry),
            *default_limits == server_default_limits(*default),
            default_interval == server_default_interval(*default),
            all == servers@,
        decreases rest@.len(),
    {
        let ghost k = n - rest@.len();
        let server = rest.remove(0);
        assert(server == all[k]);
        let default_copy = match default_limits {
            Some(l) => Some(l.duplicate()),
            None => None,
        };
        let limits = match resolve_limits(registry, server.limits, default_copy) {
            Ok(l) => l,
            Err(e) => {
                proof {
                    assert(all.take(k + 1).drop_last() =~= all.take(k));
                    assert(all.take(k + 1).last() == all[k]);
                    assert(spec_resolve_server(reg, all[k], *default) == Err::<ResolvedServerConfig, ConfigError>(e));
                    assert(spec_resolve_servers(reg, all.take(k + 1), *default) == Err::<Seq<ResolvedServerConfig>, ConfigError>(e));
                    lemma_servers_error_persists(reg, all, *default, k + 1);
                    assert(all.take(n as int) =~= all);
                    assert(spec_resolve_servers(reg, all, *default) == Err::<Seq<ResolvedServerConfig>, ConfigError>(e));
                }
                return Err(e);
            },
        };
        out.push(
            ResolvedServerConfig {
                ip: server.ip,
                display: server.display,
                port: server.port,
                interval: setting_or(server.interval, default_interval, 15),
                token: server.token,
                limits,
            },
        );
        proof {
            assert(all.take(k + 1).drop_last() =~= all.take(k));
            assert(all.take(k + 1).last() == all[k]);
        }
    }
    assert(all.take(n as int) =~= all);
    Ok(out)
}

proof fn lemma_servers_error_persists(
    reg: Option<Seq<(String, Alert)>>,
    all: Seq<ServerConfig>,
    default: Option<DefaultServerConfig>,
    k: int,
)
    requires
        0 <= k <= all.len(),
        spec_resolve_servers(reg, all.take(k), default) is Err,
    ensures
        spec_resolve_servers(reg, all.take(all.len() as int), default) == spec_resolve_servers(
            reg,
            all.take(k),
            default,
        ),
    decreases all.len() - k,
{
    if k < all.len() {
        assert(all.take(k + 1).drop_last() =~= all.take(k));
        lemma_servers_error_persists(reg, all, default, k + 1);
    }
}

fn resolve_services(
    registry: &Option<Vec<(String, Alert)>>,
    services: Vec<ServiceConfig>,
    default: &Option<DefaultServiceConfig>,
) -> (r: Result<Vec<ResolvedServiceConfig>, ConfigError>)
    ensures
        match (r, spec_resolve_services(registry_view(*registry), services@, *default)) {
            (Ok(v), Ok(s)) => v@ == s,
            (Err(e), Err(e2)) => e == e2,
            _ => false,
        },
{
    let ghost all = services@;
    let ghost reg = registry_view(*registry);
    let mut out: Vec<ResolvedServiceConfig> = Vec::new();
    let mut rest = services;
    let ghost n = all.len();
    assert(spec_resolve_services(reg, all.take(0), *default) == Ok::<
        Seq<ResolvedServiceConfig>,
        ConfigError,
    >(Seq::empty())) by {
        assert(all.take(0).len() == 0);
    }
    let (default_alert, default_grace) = match default {
        Some(d) => (&d.alert, d.grace),
        None => (&None, None),
    };
    let (default_interval, default_timeout) = match default {
        Some(d) => (d.interval, d.timeout),
        None => (None, None),
    };
    while rest.len() > 0
        invariant
            n == all.len(),
            rest@.len() <= n,
            rest@ == all.skip(n - rest@.len()),
            spec_resolve_services(reg, all.take(n - rest@.len()), *default) == Ok::<
                Seq<ResolvedServiceConfig>,
                ConfigError,
            >(out@),
            reg == registry_view(*registry),
            *default_alert == default_service_alert(*default),
            default_grace == default_service_grace(*default),
            default_interval == default_service_interval_of(*default),
            default_timeout == default_service_timeout_of(*default),
            all == services@,
        decreases rest@.len(),
    {
        let ghost k = n - rest@.len();
        let service = rest.remove(0);
        assert(service == all[k]);
        let name = first_of(service.alert, copy_opt_string(default_alert));
        let alert = match resolve_alert(registry, name) {
            Ok(a) => a,
            Err(e) => {
                proof {
                    assert(all.take(k + 1).drop_last() =~= all.take(k));
                    assert(all.take(k + 1).last() == all[k]);
                    assert(spec_resolve_service(reg, all[k], *default) == Err::<ResolvedServiceConfig, ConfigError>(e));
                    assert(spec_resolve_services(reg, all.take(k + 1), *default) == Err::<Seq<ResolvedServiceConfig>, ConfigError>(e));
                    lemma_services_error_persists(reg, all, *default, k + 1);
                    assert(all.take(n as int) =~= all);
                }
                return Err(e);
            },
        };
        out.push(
            ResolvedServiceConfig {
                name: service.name,
                url: service.url,
                interval: setting_or(service.interval, default_interval, 60),
                timeout: setting_or(service.timeout, default_timeout, 10),
                method: service.method,
                expected_status: service.expected_status,
                body_pattern: service.body_pattern,
                grace: first_of(service.grace, default_grace),
                alert,
            },
        );
        proof {
            assert(all.take(k + 1).drop_last() =~= all.take(k));
            assert(all.take(k + 1).last() == all[k]);
        }
    }
    assert(all.take(n as int) =~= all);
    Ok(out)
}

proof fn lemma_services_error_persists(
    reg: Option<Seq<(String, Alert)>>,
    all: Seq<ServiceConfig>,
    default: Option<DefaultServiceConfig>,
    k: int,
)
    requires
        0 <= k <= all.len(),
        spec_resolve_services(reg, all.take(k), default) is Err,
    ensures
        spec_resolve_services(reg, all.take(all.len() as int), default) == spec_resolve_services(
            reg,
            all.take(k),
            default,
        ),
    decreases all.len() - k,
{
    if k < all.len() {
        assert(all.take(k + 1).drop_last() =~= all.take(k));
        lemma_services_error_persists(reg, all, default, k + 1);
    }
}

} // verus!
