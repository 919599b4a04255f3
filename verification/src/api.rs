//! The HTTP API's data: response shapes, errors and their status codes, bearer token
//! checking, query limits and the record of polling outcomes per server.
use vstd::prelude::*;
use vstd::string::*;
use crate::alert_engine::{distinct_keys, first_position, lemma_distinct_push, lemma_first_position,
    lemma_first_position_absent, lemma_first_position_unique, string_keys};
use crate::storage::StorageError;
use crate::health::{
    determine_server_health_at, determine_service_health_at, spec_server_health,
    spec_service_health,
};
use crate::status::{MonitoringStatus, ServiceHealthStatus, ServiceStatus};

verus! {

// ---------------------------------------------------------------------------
// Response shapes
// ---------------------------------------------------------------------------

/// A server and its health, as `GET /api/v1/servers` lists it.
#[derive(Debug, Clone)]
pub struct ServerInfo {
    pub server_id: String,
    pub display_name: String,
    pub monitoring_status: String,
    pub health_status: String,
    /// Time of the latest metrics (RFC 3339).
    pub last_seen: Option<String>,
}

/// A service and its health, as `GET /api/v1/services` lists it.
#[derive(Debug, Clone)]
pub struct ServiceInfo {
    pub name: String,
    pub url: String,
    pub monitoring_status: String,
    pub health_status: String,
    /// Time of the latest check (RFC 3339).
    pub last_check: Option<String>,
    /// Status of the latest check.
    pub last_status: Option<String>,
}

/// Response of `GET /api/v1/servers`.
#[derive(Debug, Clone)]
pub struct ServersResponse {
    pub servers: Vec<ServerInfo>,
    pub count: usize,
}

/// Response of `GET /api/v1/services`.
#[derive(Debug, Clone)]
pub struct ServicesResponse {
    pub services: Vec<ServiceInfo>,
    pub count: usize,
}

/// Response of `GET /api/v1/health`.
#[derive(Debug, Clone)]
pub struct HealthResponse {
    pub status: String,
    pub timestamp: String,
}

/// Response of `GET /api/v1/servers/:id/metrics`, over the stored metric rows `R`.
#[derive(Debug, Clone)]
pub struct MetricsResponse<R> {
    pub server_id: String,
    pub start: String,
    pub end: String,
    pub count: usize,
    pub metrics: Vec<R>,
}

/// Response of `GET /api/v1/servers/:id/metrics/latest`.
#[derive(Debug, Clone)]
pub struct LatestMetricsResponse<R> {
    pub server_id: String,
    pub count: usize,
    pub metrics: Vec<R>,
}

/// Response of `GET /api/v1/services/:name/checks`, over the stored check rows `C`.
#[derive(Debug, Clone)]
pub struct ServiceChecksResponse<C> {
    pub service_name: String,
    pub start: String,
    pub end: String,
    pub count: usize,
    pub checks: Vec<C>,
}

/// Query parameters of the latest-metrics endpoint.
#[derive(Debug, Clone)]
pub struct LatestQuery {
    pub limit: Option<usize>,
}

/// A list response: the items and how many there are.
pub fn servers_response(servers: Vec<ServerInfo>) -> (r: ServersResponse)
    ensures
        r.servers@ == servers@,
        r.count == servers@.len(),
{
    let count = servers.len();
    ServersResponse { servers, count }
}

/// A list response: the items and how many there are.
pub fn services_response(services: Vec<ServiceInfo>) -> (r: ServicesResponse)
    ensures
        r.services@ == services@,
        r.count == services@.len(),
{
    let count = services.len();
    ServicesResponse { services, count }
}

/// A server's entry in the server list, from its latest metrics (their time in Unix
/// milliseconds and as text), its polling outcomes and the current time: monitored,
/// with the health [`spec_server_health`] gives and the time of the latest metrics.
pub fn server_entry(
    server_id: String,
    display_name: String,
    latest: Option<(i64, String)>,
    polling: &PollingStatus,
    now: i64,
) -> (info: ServerInfo)
    ensures
        info.server_id == server_id,
        info.display_name == display_name,
        info.monitoring_status@ == MonitoringStatus::Active.spec_as_str(),
        info.health_status@ == spec_server_health(
            match latest {
                Some(l) => Some(l.0),
                None => None,
            },
            polling.last_success_timestamp,
            polling.last_error_timestamp,
            now,
        ).spec_as_str(),
        info.last_seen == (match latest {
            Some(l) => Some(l.1),
            None => None,
        }),
{
    let (metric_time, last_seen) = match latest {
        Some((t, text)) => (Some(t), Some(text)),
        None => (None, None),
    };
    let health = determine_server_health_at(
        metric_time,
        polling.last_success_timestamp,
        polling.last_error_timestamp,
        now,
    );
    ServerInfo {
        server_id,
        display_name,
        monitoring_status: String::from_str(MonitoringStatus::Active.as_str()),
        health_status: String::from_str(health.as_str()),
        last_seen,
    }
}

/// A service's entry in the service list, from its latest check (status, time in Unix
/// milliseconds and as text) and the current time: monitored, with the health
/// [`spec_service_health`] gives (unknown without a check), the time and the status of the
/// latest check.
pub fn service_entry(name: String, url: String, latest: Option<(ServiceStatus, i64, String)>, now: i64) -> (info: ServiceInfo)
    ensures
        info.name == name,
        info.url == url,
        info.monitoring_status@ == MonitoringStatus::Active.spec_as_str(),
        info.health_status@ == (match latest {
            Some(l) => spec_service_health(l.0, l.1, now).spec_as_str(),
            None => ServiceHealthStatus::Unknown.spec_as_str(),
        }),
        info.last_check == (match latest {
            Some(l) => Some(l.2),
            None => None,
        }),
        match (info.last_status, latest) {
            (Some(s), Some(l)) => s@ == l.0.spec_as_str(),
            (None, None) => true,
            _ => false,
        },
{
    let (health, last_check, last_status) = match latest {
        Some((status, t, text)) => (
            determine_service_health_at(status, t, now),
            Some(text),
            Some(String::from_str(status.as_str())),
        ),
        None => (ServiceHealthStatus::Unknown, None, None),
    };
    ServiceInfo {
        name,
        url,
        monitoring_status: String::from_str(MonitoringStatus::Active.as_str()),
        health_status: String::from_str(health.as_str()),
        last_check,
        last_status,
    }
}

// ---------------------------------------------------------------------------
// Query limits and ranges
// ---------------------------------------------------------------------------

/// Default number of metrics a range query returns.
pub const DEFAULT_METRICS_LIMIT: usize = 1000;

/// Largest number of metrics a range query returns.
pub const MAX_METRICS_LIMIT: usize = 10000;

/// Default number of latest metrics returned.
pub const DEFAULT_LATEST_LIMIT: usize = 100;

/// Largest number of latest metrics returned.
pub const MAX_LATEST_LIMIT: usize = 1000;

/// The limit of a range query: the requested one (1000 by default), at most 10000.
pub fn metrics_query_limit(requested: Option<usize>) -> (l: usize)
    ensures
        l == (match requested {
            Some(r) => if r < MAX_METRICS_LIMIT {
                r
            } else {
                MAX_METRICS_LIMIT
            },
            None => DEFAULT_METRICS_LIMIT,
        }),
{
    let l = match requested {
        Some(r) => r,
        None => DEFAULT_METRICS_LIMIT,
    };
    if l < MAX_METRICS_LIMIT {
        l
    } else {
        MAX_METRICS_LIMIT
    }
}

/// The limit of a latest-metrics query: the requested one (100 by default), at most 1000.
pub fn latest_query_limit(requested: Option<usize>) -> (l: usize)
    ensures
        l == (match requested {
            Some(r) => if r < MAX_LATEST_LIMIT {
                r
            } else {
                MAX_LATEST_LIMIT
            },
            None => DEFAULT_LATEST_LIMIT,
        }),
{
    let l = match requested {
        Some(r) => r,
        None => DEFAULT_LATEST_LIMIT,
    };
    if l < MAX_LATEST_LIMIT {
        l
    } else {
        MAX_LATEST_LIMIT
    }
}

/// The time range of a history query (Unix milliseconds): the requested end (`now` by
/// default) and the requested start (`lookback_hours` before the end by default).
pub fn query_time_range(start: Option<i64>, end: Option<i64>, now: i64, lookback_hours: i64) -> (r: (
    i64,
    i64,
))
    requires
        0 <= lookback_hours <= 1_000_000,
        end matches Some(e) ==> e >= i64::MIN + lookback_hours * 3_600_000,
        now >= i64::MIN + lookback_hours * 3_600_000,
    ensures
        r.1 == (match end {
            Some(e) => e,
            None => now,
        }),
        r.0 == (match start {
            Some(s) => s as int,
            None => r.1 - lookback_hours * 3_600_000,
        }),
{
    let e = match end {
        Some(e) => e,
        None => now,
    };
    let s = match start {
        Some(s) => s,
        None => e - lookback_hours * 3_600_000,
    };
    (s, e)
}

// ---------------------------------------------------------------------------
// Errors
// ---------------------------------------------------------------------------

/// Errors of API handlers.
#[derive(Debug)]
pub enum ApiError {
    StorageError(String),
    InvalidRequest(String),
    NotFound(String),
    Internal(String),
}

impl ApiError {
    pub open spec fn spec_status(&self) -> u16 {
        match self {
            ApiError::StorageError(_) => 500,
            ApiError::InvalidRequest(_) => 400,
            ApiError::NotFound(_) => 404,
            ApiError::Internal(_) => 500,
        }
    }

    pub open spec fn spec_text(&self) -> Seq<char> {
        match self {
            ApiError::StorageError(m) => m@,
            ApiError::InvalidRequest(m) => m@,
            ApiError::NotFound(m) => m@,
            ApiError::Internal(m) => m@,
        }
    }

    /// The HTTP status code and the error text of the response: storage and internal
    /// errors are 500, invalid requests 400, missing resources 404.
    pub fn into_status_and_message(self) -> (r: (u16, String))
        ensures
            r.0 == self.spec_status(),
            r.1@ == self.spec_text(),
    {
        match self {
            ApiError::StorageError(m) => (500, m),
            ApiError::InvalidRequest(m) => (400, m),
            ApiError::NotFound(m) => (404, m),
            ApiError::Internal(m) => (500, m),
        }
    }

    /// A storage failure seen by the API: its message becomes the error text.
    pub fn from_storage_error(err: &StorageError) -> (e: ApiError)
        ensures
            e matches ApiError::StorageError(m) && (err.spec_message() matches Some(t) ==> m@
                == t),
    {
        ApiError::StorageError(err.message())
    }
}

/// Why a request is not authorized.
#[derive(Debug, Clone, Copy, PartialEq, Eq, Structural)]
pub enum AuthError {
    MissingToken,
    InvalidFormat,
    InvalidToken,
}

impl AuthError {
    pub open spec fn spec_status(self) -> u16 {
        match self {
            AuthError::MissingToken => 401,
            AuthError::InvalidFormat => 401,
            AuthError::InvalidToken => 403,
        }
    }

    pub open spec fn spec_text(self) -> Seq<char> {
        match self {
            AuthError::MissingToken => "Missing Authorization header"@,
            AuthError::InvalidFormat => "Invalid Authorization format (expected: Bearer <token>)"@,
            AuthError::InvalidToken => "Invalid token"@,
        }
    }

    /// The HTTP status code and the text of the refusal: 401 for a missing or malformed
    /// header, 403 for a wrong token.
    pub fn status_and_message(&self) -> (r: (u16, &'static str))
        ensures
            r.0 == self.spec_status(),
            r.1@ == self.spec_text(),
    {
        match self {
            AuthError::MissingToken => (401, "Missing Authorization header"),
            AuthError::InvalidFormat => (401, "Invalid Authorization format (expected: Bearer <token>)"),
            AuthError::InvalidToken => (403, "Invalid token"),
        }
    }
}

/// `s` without `prefix`, when it starts with it.
pub open spec fn spec_strip_prefix(s: Seq<char>, prefix: Seq<char>) -> Option<Seq<char>> {
    if prefix.len() <= s.len() && s.take(prefix.len() as int) == prefix {
        Some(s.skip(prefix.len() as int))
    } else {
        None
    }
}

/// `s` without `prefix`, when it starts with it.
pub fn strip_prefix(s: &str, prefix: &str) -> (r: Option<String>)
    ensures
        match r {
            Some(rest) => spec_strip_prefix(s@, prefix@) == Some(rest@),
            None => spec_strip_prefix(s@, prefix@) is None,
        },
{
    let n = s.unicode_len();
    let m = prefix.unicode_len();
    if m > n {
        return None;
    }
    let mut i: usize = 0;
    while i < m
        invariant
            0 <= i <= m,
            m == prefix@.len(),
            n == s@.len(),
            m <= n,
            forall|j: int| 0 <= j < i ==> s@[j] == prefix@[j],
        decreases m - i,
    {
        if s.get_char(i) != prefix.get_char(i) {
            assert(s@.take(m as int)[i as int] != prefix@[i as int]);
            return None;
        }
        i = i + 1;
    }
    assert(s@.take(m as int) =~= prefix@);
    let mut rest = String::new();
    let mut k = m;
    while k < n
        invariant
            m <= k <= n,
            n == s@.len(),
            rest@ =~= s@.subrange(m as int, k as int),
        decreases n - k,
    {
        rest.push(s.get_char(k));
        k = k + 1;
    }
    Some(rest)
}

/// The outcome of checking an `Authorization` header against the expected token: missing
/// header, no `Bearer ` prefix, wrong token, or accepted.
pub open spec fn spec_authorize(header: Option<Seq<char>>, expected: Seq<char>) -> Result<(), AuthError> {
    match header {
        None => Err(AuthError::MissingToken),
        Some(h) => match spec_strip_prefix(h, "Bearer "@) {
            None => Err(AuthError::InvalidFormat),
            Some(token) => if token == expected {
                Ok(())
            } else {
                Err(AuthError::InvalidToken)
            },
        },
    }
}

/// Checks an `Authorization` header (its text, when present and readable) against the
/// expected bearer token.
pub fn authorize(header: Option<&str>, expected_token: &str) -> (r: Result<(), AuthError>)
    ensures
        r == spec_authorize(
            match header {
                Some(h) => Some(h@),
                None => None,
            },
            expected_token@,
        ),
{
    let h = match header {
        None => {
            return Err(AuthError::MissingToken);
        },
        Some(h) => h,
    };
    let token = match strip_prefix(h, "Bearer ") {
        None => {
            return Err(AuthError::InvalidFormat);
        },
        Some(t) => t,
    };
    let expected = String::from_str(expected_token);
    if token == expected {
        Ok(())
    } else {
        Err(AuthError::InvalidToken)
    }
}

// ---------------------------------------------------------------------------
// Request failures
// ---------------------------------------------------------------------------

/// What an HTTP request to an agent or a service ran into, most specific first: the
/// request timed out, the connection could not be made, the request itself failed, or
/// something else went wrong.
#[derive(Debug, Clone, Copy, PartialEq, Eq, Structural)]
pub enum HttpFailure {
    Timeout,
    Connect,
    Request,
    Other,
}

pub open spec fn spec_http_error_message(kind: HttpFailure, description: Seq<char>) -> Seq<char> {
    match kind {
        HttpFailure::Timeout => "Request timeout"@,
        HttpFailure::Connect => "Connection failed"@,
        HttpFailure::Request => "HTTP request failed: "@ + description,
        HttpFailure::Other => "Unexpected error: "@ + description,
    }
}

/// The message recorded for a failed request, from the kind of failure and the error's
/// description.
pub fn handle_http_error(kind: HttpFailure, description: &str) -> (m: String)
    ensures
        m@ == spec_http_error_message(kind, description@),
{
    match kind {
        HttpFailure::Timeout => String::from_str("Request timeout"),
        HttpFailure::Connect => String::from_str("Connection failed"),
        HttpFailure::Request => {
            let mut m = String::from_str("HTTP request failed: ");
            m.append(description);
            m
        },
        HttpFailure::Other => {
            let mut m = String::from_str("Unexpected error: ");
            m.append(description);
            m
        },
    }
}

// ---------------------------------------------------------------------------
// Polling outcomes
// ---------------------------------------------------------------------------

/// The latest polling outcomes of one server: the time of the last success (as text and
/// as Unix milliseconds), the last error message and its time.
#[derive(Debug, Clone)]
pub struct PollingStatus {
    pub last_success: Option<String>,
    pub last_error: Option<String>,
    pub last_success_timestamp: Option<i64>,
    pub last_error_timestamp: Option<i64>,
}

impl PollingStatus {
    /// No outcome recorded.
    pub fn unknown() -> (p: PollingStatus)
        ensures
            p.last_success is None,
            p.last_error is None,
            p.last_success_timestamp is None,
            p.last_error_timestamp is None,
    {
        PollingStatus {
            last_success: None,
            last_error: None,
            last_success_timestamp: None,
            last_error_timestamp: None,
        }
    }

    pub fn duplicate(&self) -> (p: PollingStatus)
        ensures
            p == *self,
    {
        PollingStatus {
            last_success: crate::config::copy_opt_string(&self.last_success),
            last_error: crate::config::copy_opt_string(&self.last_error),
            last_success_timestamp: self.last_success_timestamp,
            last_error_timestamp: self.last_error_timestamp,
        }
    }
}

impl Default for PollingStatus {
    /// No outcome recorded.
    fn default() -> (p: Self)
        ensures
            p.last_success is None,
            p.last_error is None,
            p.last_success_timestamp is None,
            p.last_error_timestamp is None,
    {
        PollingStatus::unknown()
    }
}

/// The outcome after a poll at `now` (`now_text` is `now` as text): a success records its
/// time and clears the error; a failure records the error and its time and keeps the last
/// success.
pub open spec fn spec_after_poll(
    before: PollingStatus,
    success: bool,
    error_message: Option<String>,
    now: i64,
    now_text: String,
) -> PollingStatus {
    if success {
        PollingStatus {
            last_success: Some(now_text),
            last_error: None,
            last_success_timestamp: Some(now),
            last_error_timestamp: None,
        }
    } else {
        PollingStatus {
            last_success: before.last_success,
            last_error: error_message,
            last_success_timestamp: before.last_success_timestamp,
            last_error_timestamp: Some(now),
        }
    }
}

/// What a poll leaves behind: a success records its time and clears any error; a failure
/// records its error and time and keeps the time of the last success.
pub proof fn lemma_poll_outcomes(
    before: PollingStatus,
    error_message: Option<String>,
    now: i64,
    now_text: String,
)
    ensures
        spec_after_poll(before, true, error_message, now, now_text).last_success == Some(now_text),
        spec_after_poll(before, true, error_message, now, now_text).last_success_timestamp == Some(now),
        spec_after_poll(before, true, error_message, now, now_text).last_error is None,
        spec_after_poll(before, false, error_message, now, now_text).last_success
            == before.last_success,
        spec_after_poll(before, false, error_message, now, now_text).last_success_timestamp
            == before.last_success_timestamp,
        spec_after_poll(before, false, error_message, now, now_text).last_error == error_message,
        spec_after_poll(before, false, error_message, now, now_text).last_error_timestamp == Some(now),
{
}

/// Polling outcomes per server.
pub struct PollingStatusStore {
    pub server_ids: Vec<String>,
    pub statuses: Vec<PollingStatus>,
}

impl PollingStatusStore {
    pub open spec fn wf(&self) -> bool {
        &&& self.server_ids@.len() == self.statuses@.len()
        &&& distinct_keys(string_keys(self.server_ids@))
    }

    /// The outcomes recorded for `id`.
    pub open spec fn status_of(&self, id: Seq<char>) -> Option<PollingStatus> {
        match first_position(string_keys(self.server_ids@), id) {
            Some(p) => Some(self.statuses@[p as int]),
            None => None,
        }
    }

    pub fn new() -> (s: PollingStatusStore)
        ensures
            s.wf(),
            forall|id: Seq<char>| #[trigger] s.status_of(id) is None,
    {
        let s = PollingStatusStore { server_ids: Vec::new(), statuses: Vec::new() };
        assert forall|id: Seq<char>| #[trigger] s.status_of(id) is None by {
            assert(string_keys(s.server_ids@).len() == 0);
        }
        s
    }

    fn find(&self, id: &str) -> (r: Option<usize>)
        requires
            self.wf(),
        ensures
            match r {
                Some(i) => first_position(string_keys(self.server_ids@), id@) == Some(i as nat),
                None => first_position(string_keys(self.server_ids@), id@) is None,
            },
    {
        let target = String::from_str(id);
        let ghost ks = string_keys(self.server_ids@);
        let mut i: usize = 0;
        while i < self.server_ids.len()
            invariant
                0 <= i <= self.server_ids@.len(),
                ks == string_keys(self.server_ids@),
                target@ == id@,
                forall|j: int| 0 <= j < i ==> #[trigger] ks[j] != id@,
            decreases self.server_ids@.len() - i,
        {
            if self.server_ids[i] == target {
                proof {
                    lemma_first_position_unique(ks, id@, i as int);
                }
                return Some(i);
            }
            i = i + 1;
        }
        proof {
            lemma_first_position_absent(ks, id@);
        }
        None
    }

    /// Records the outcome of a poll of `server_id` at `now`. Other servers keep theirs.
    pub fn update_status(
        &mut self,
        server_id: &str,
        success: bool,
        error_message: Option<String>,
        now: i64,
        now_text: String,
    )
        requires
            old(self).wf(),
        ensures
            final(self).wf(),
            final(self).status_of(server_id@) == Some(
                spec_after_poll(
                    match old(self).status_of(server_id@) {
                        Some(p) => p,
                        None => PollingStatus {
                            last_success: None,
                            last_error: None,
                            last_success_timestamp: None,
                            last_error_timestamp: None,
                        },
                    },
                    success,
                    error_message,
                    now,
                    now_text,
                ),
            ),
            forall|other: Seq<char>|
                other != server_id@ ==> #[trigger] final(self).status_of(other) == old(self).status_of(other),
    {
        let ghost old_keys = string_keys(self.server_ids@);
        let ghost key = server_id@;
        let idx = self.find(server_id);
        proof {
            lemma_first_position(old_keys, key);
        }
        let before = match idx {
            Some(i) => self.statuses[i].duplicate(),
            None => PollingStatus::unknown(),
        };
        let after = if success {
            PollingStatus {
                last_success: Some(now_text),
                last_error: None,
                last_success_timestamp: Some(now),
                last_error_timestamp: None,
            }
        } else {
            PollingStatus {
                last_success: before.last_success,
                last_error: error_message,
                last_success_timestamp: before.last_success_timestamp,
                last_error_timestamp: Some(now),
            }
        };
        match idx {
            Some(i) => {
                proof {
                    lemma_first_position(old_keys, key);
                }
                self.statuses.set(i, after);
                proof {
                    assert(string_keys(self.server_ids@) == old_keys);
                    assert forall|other: Seq<char>| other != key implies #[trigger] self.status_of(
                        other,
                    ) == old(self).status_of(other) by {
                        lemma_first_position(old_keys, other);
                        if let Some(q) = first_position(old_keys, other) {
                            assert(q != i);
                        }
                    }
                }
            },
            None => {
                self.server_ids.push(String::from_str(server_id));
                self.statuses.push(after);
                proof {
                    assert(string_keys(self.server_ids@) =~= old_keys.push(key));
                    lemma_distinct_push(old_keys, key);
                    lemma_first_position(old_keys, key);
                    lemma_first_position_unique(old_keys.push(key), key, old_keys.len() as int);
                    assert forall|other: Seq<char>| other != key implies #[trigger] self.status_of(
                        other,
                    ) == old(self).status_of(other) by {
                        lemma_first_position(old_keys, other);
                        match first_position(old_keys, other) {
                            Some(q) => {
                                lemma_first_position_unique(old_keys.push(key), other, q as int);
                            },
                            None => {
                                lemma_first_position_absent(old_keys.push(key), other);
                            },
                        }
                    }
                }
            },
        }
    }

    /// The outcomes recorded for `server_id`; none recorded reads as all absent.
    pub fn get_status(&self, server_id: &str) -> (p: PollingStatus)
        requires
            self.wf(),
        ensures
            p == (match self.status_of(server_id@) {
                Some(s) => s,
                None => PollingStatus {
                    last_success: None,
                    last_error: None,
                    last_success_timestamp: None,
                    last_error_timestamp: None,
                },
            }),
    {
        match self.find(server_id) {
            Some(i) => {
                proof {
                    lemma_first_position(string_keys(self.server_ids@), server_id@);
                }
                self.statuses[i].duplicate()
            },
            None => PollingStatus::unknown(),
        }
    }
}

} // verus!
