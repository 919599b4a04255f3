//! The alerting decisions: per-server grace counters for temperature and CPU usage,
//! per-service down counters, muting, and state queries.
//!
//! The engine does not send anything itself. Each event handler returns the
//! notifications that are due; the caller delivers them.
use vstd::prelude::*;
use vstd::string::*;
use crate::config::{Alert, ResolvedLimit, ResolvedLimits, ResolvedServerConfig, ResolvedServiceConfig};
use crate::evaluation::{
    next_grace_counter, track_reading, trailing_exceed_run, ResourceEvaluation,
    lemma_counter_counts_trailing_exceedances,
};
use crate::naming::{server_id, spec_server_id};
use crate::status::ServiceStatus;

verus! {

// ---------------------------------------------------------------------------
// First-match lookup by key
// ---------------------------------------------------------------------------

/// Position of the first key equal to `id`.
pub open spec fn first_position(keys: Seq<Seq<char>>, id: Seq<char>) -> Option<nat>
    decreases keys.len(),
{
    if keys.len() == 0 {
        None
    } else if keys[0] == id {
        Some(0)
    } else {
        match first_position(keys.drop_first(), id) {
            Some(p) => Some(p + 1),
            None => None,
        }
    }
}

pub proof fn lemma_first_position(keys: Seq<Seq<char>>, id: Seq<char>)
    ensures
        match first_position(keys, id) {
            Some(p) => p < keys.len() && keys[p as int] == id && forall|j: int|
                0 <= j < p ==> #[trigger] keys[j] != id,
            None => forall|j: int| 0 <= j < keys.len() ==> #[trigger] keys[j] != id,
        },
    decreases keys.len(),
{
    if keys.len() > 0 {
        lemma_first_position(keys.drop_first(), id);
        if keys[0] != id {
            assert forall|j: int| 0 < j < keys.len() implies keys[j] == keys.drop_first()[j - 1] by {}
        }
    }
}

/// The position is determined by the keys: whatever has no match is `None`, the first
/// match is found.
pub proof fn lemma_first_position_unique(keys: Seq<Seq<char>>, id: Seq<char>, p: int)
    requires
        0 <= p < keys.len(),
        keys[p] == id,
        forall|j: int| 0 <= j < p ==> #[trigger] keys[j] != id,
    ensures
        first_position(keys, id) == Some(p as nat),
{
    lemma_first_position(keys, id);
    match first_position(keys, id) {
        Some(q) => {
            if q < p {
                assert(keys[q as int] != id);
            } else if q > p {
            }
        },
        None => {
            assert(keys[p] != id);
        },
    }
}

pub proof fn lemma_first_position_absent(keys: Seq<Seq<char>>, id: Seq<char>)
    requires
        forall|j: int| 0 <= j < keys.len() ==> #[trigger] keys[j] != id,
    ensures
        first_position(keys, id) is None,
{
    lemma_first_position(keys, id);
    if let Some(p) = first_position(keys, id) {
        assert(keys[p as int] == id);
    }
}

/// Appending a key leaves every earlier first position as it was; a key seen for the
/// first time is found at the end.
pub proof fn lemma_first_position_push(keys: Seq<Seq<char>>, k: Seq<char>, id: Seq<char>)
    ensures
        first_position(keys.push(k), id) == (match first_position(keys, id) {
            Some(p) => Some(p),
            None => if k == id {
                Some(keys.len())
            } else {
                None
            },
        }),
{
    let pushed = keys.push(k);
    lemma_first_position(keys, id);
    match first_position(keys, id) {
        Some(p) => {
            lemma_first_position_unique(pushed, id, p as int);
        },
        None => {
            if k == id {
                lemma_first_position_unique(pushed, id, keys.len() as int);
            } else {
                lemma_first_position_absent(pushed, id);
            }
        },
    }
}

/// No key occurs twice.
pub open spec fn distinct_keys(keys: Seq<Seq<char>>) -> bool {
    forall|i: int, j: int| 0 <= i < j < keys.len() ==> keys[i] != keys[j]
}

/// Appending a key that is not there yet keeps the keys distinct.
pub proof fn lemma_distinct_push(keys: Seq<Seq<char>>, k: Seq<char>)
    requires
        distinct_keys(keys),
        first_position(keys, k) is None,
    ensures
        distinct_keys(keys.push(k)),
{
    lemma_first_position(keys, k);
    let pushed = keys.push(k);
    assert forall|i: int, j: int| 0 <= i < j < pushed.len() implies pushed[i] != pushed[j] by {
        if j == keys.len() {
            assert(pushed[i] == keys[i]);
            assert(keys[i] != k);
        } else {
            assert(pushed[i] == keys[i] && pushed[j] == keys[j]);
        }
    }
}

pub(crate) fn find_key(keys: &Vec<String>, id: &str) -> (r: Option<usize>)
    ensures
        match r {
            Some(i) => first_position(string_keys(keys@), id@) == Some(i as nat),
            None => first_position(string_keys(keys@), id@) is None,
        },
{
    let target = String::from_str(id);
    let ghost ks = string_keys(keys@);
    let mut i: usize = 0;
    while i < keys.len()
        invariant
            0 <= i <= keys@.len(),
            ks == string_keys(keys@),
            target@ == id@,
            forall|j: int| 0 <= j < i ==> #[trigger] ks[j] != id@,
        decreases keys@.len() - i,
    {
        if keys[i] == target {
            proof {
                lemma_first_position_unique(ks, id@, i as int);
            }
            return Some(i);
        }
        i = i + 1;
    }
    proof {
        lemma_first_position_absent(ks, id@);
    }
    None
}

pub open spec fn string_keys(keys: Seq<String>) -> Seq<Seq<char>> {
    keys.map_values(|k: String| k@)
}

// ---------------------------------------------------------------------------
// State
// ---------------------------------------------------------------------------

/// Grace counters of one server: consecutive readings at/above the temperature and the
/// CPU usage limits.
#[derive(Debug, Clone, Copy, PartialEq, Eq, Structural)]
pub struct GraceCounters {
    pub temperature: usize,
    pub usage: usize,
}

/// Down-tracking of one service: the last status seen and the number of consecutive
/// failed (down or degraded) checks.
#[derive(Debug, Clone, Copy, PartialEq, Eq, Structural)]
pub struct ServiceProgress {
    pub last_status: Option<ServiceStatus>,
    pub consecutive_down: usize,
}

/// A snapshot of a server's alert state.
#[derive(Debug, Clone)]
pub struct AlertState {
    pub server_id: String,
    pub cpu_consecutive_exceeds: usize,
    pub temp_consecutive_exceeds: usize,
    /// When the snapshot was taken (Unix milliseconds).
    pub last_evaluation: i64,
}

/// What a metric event says about a server's readings, relative to that server's limits
/// (see [`AlertActor::thresholds`]): whether the average temperature is below the
/// temperature limit (`None` when the server reported no temperature) and whether the
/// average CPU usage is below the usage limit.
#[derive(Debug, Clone)]
pub struct MetricObservation {
    pub server_id: String,
    pub temperature_below_limit: Option<bool>,
    pub usage_below_limit: bool,
}

/// The limit values configured for a server.
#[derive(Debug, Clone, Copy, PartialEq, Eq, Structural)]
pub struct Thresholds {
    pub temperature: Option<usize>,
    pub usage: Option<usize>,
}

/// A notification that is due for a server resource.
#[derive(Debug, Clone)]
pub enum AlertAction {
    Temperature { server_id: String, evaluation: ResourceEvaluation },
    Usage { server_id: String, evaluation: ResourceEvaluation },
}

/// The outcome of one service check.
#[derive(Debug, Clone)]
pub struct ServiceCheckObservation {
    pub service_name: String,
    pub url: String,
    pub status: ServiceStatus,
    pub error_message: Option<String>,
}

/// A service notification that is due, with the alert target it goes to.
#[derive(Debug, Clone)]
pub struct ServiceAlertAction {
    pub alert: Alert,
    pub service_name: String,
    pub url: String,
    pub previous_status: Option<ServiceStatus>,
    pub current_status: ServiceStatus,
    pub error_message: Option<String>,
}

/// Requests the alert actor answers.
#[derive(Debug)]
pub enum AlertRequest {
    GetState { server_id: String },
    MuteAlerts { duration_secs: u64 },
    UnmuteAlerts,
    Shutdown,
}

/// Answers to [`AlertRequest`]s.
#[derive(Debug)]
pub enum AlertReply {
    State(Option<AlertState>),
    Continue,
    Stop,
}

/// Per-server and per-service alert state. Entries are found by key, the first entry with
/// a key counting (registration replaces an existing entry, so keys stay distinct).
pub struct AlertActor {
    pub server_ids: Vec<String>,
    pub server_configs: Vec<ResolvedServerConfig>,
    pub server_counters: Vec<GraceCounters>,
    pub service_names: Vec<String>,
    pub service_configs: Vec<ResolvedServiceConfig>,
    pub service_progress: Vec<ServiceProgress>,
    pub muted: bool,
}

/// Whether a service status change is worth a notification: going down or degraded from
/// up or from no previous status, or recovering from down or degraded.
pub open spec fn spec_should_alert(previous: Option<ServiceStatus>, current: ServiceStatus) -> bool {
    match (previous, current) {
        (Some(ServiceStatus::Up), ServiceStatus::Down) => true,
        (Some(ServiceStatus::Up), ServiceStatus::Degraded) => true,
        (None, ServiceStatus::Down) => true,
        (None, ServiceStatus::Degraded) => true,
        (Some(ServiceStatus::Down), ServiceStatus::Up) => true,
        (Some(ServiceStatus::Degraded), ServiceStatus::Up) => true,
        _ => false,
    }
}

/// Whether a service status change is worth a notification.
pub fn should_send_service_alert(previous: Option<ServiceStatus>, current: ServiceStatus) -> (b: bool)
    ensures
        b == spec_should_alert(previous, current),
{
    match (previous, current) {
        (Some(ServiceStatus::Up), ServiceStatus::Down) => true,
        (Some(ServiceStatus::Up), ServiceStatus::Degraded) => true,
        (None, ServiceStatus::Down) => true,
        (None, ServiceStatus::Degraded) => true,
        (Some(ServiceStatus::Down), ServiceStatus::Up) => true,
        (Some(ServiceStatus::Degraded), ServiceStatus::Up) => true,
        _ => false,
    }
}

pub open spec fn grace_of(limit: ResolvedLimit) -> nat {
    match limit.grace {
        Some(g) => g as nat,
        None => 0,
    }
}

pub open spec fn temperature_limit(limits: Option<ResolvedLimits>) -> Option<ResolvedLimit> {
    match limits {
        Some(l) => l.temperature,
        None => None,
    }
}

pub open spec fn usage_limit(limits: Option<ResolvedLimits>) -> Option<ResolvedLimit> {
    match limits {
        Some(l) => l.usage,
        None => None,
    }
}

/// The temperature evaluation an observation leads to, if any.
pub open spec fn temperature_evaluation(
    limits: Option<ResolvedLimits>,
    counters: GraceCounters,
    obs: MetricObservation,
) -> Option<ResourceEvaluation> {
    match (temperature_limit(limits), obs.temperature_below_limit) {
        (Some(l), Some(below)) => Some(
            ResourceEvaluation::spec_evaluate(below, grace_of(l), counters.temperature as nat),
        ),
        _ => None,
    }
}

/// The usage evaluation an observation leads to, if any.
pub open spec fn usage_evaluation(
    limits: Option<ResolvedLimits>,
    counters: GraceCounters,
    obs: MetricObservation,
) -> Option<ResourceEvaluation> {
    match usage_limit(limits) {
        Some(l) => Some(
            ResourceEvaluation::spec_evaluate(obs.usage_below_limit, grace_of(l), counters.usage as nat),
        ),
        None => None,
    }
}

pub open spec fn advanced(evaluation: Option<ResourceEvaluation>, counter: usize) -> nat {
    match evaluation {
        Some(e) => next_grace_counter(e, counter as nat),
        None => counter as nat,
    }
}

pub open spec fn notifies(evaluation: Option<ResourceEvaluation>) -> bool {
    match evaluation {
        Some(e) => e.spec_is_notification(),
        None => false,
    }
}

/// The notifications an observation leads to: temperature first, then usage.
pub open spec fn actions_match(
    actions: Seq<AlertAction>,
    id: Seq<char>,
    temperature: Option<ResourceEvaluation>,
    usage: Option<ResourceEvaluation>,
) -> bool {
    let t = if notifies(temperature) {
        1int
    } else {
        0int
    };
    let u = if notifies(usage) {
        1int
    } else {
        0int
    };
    &&& actions.len() == t + u
    &&& notifies(temperature) ==> (actions[0] matches AlertAction::Temperature { server_id, evaluation }
        && server_id@ == id && Some(evaluation) == temperature)
    &&& notifies(usage) ==> (actions[t] matches AlertAction::Usage { server_id, evaluation }
        && server_id@ == id && Some(evaluation) == usage)
}

/// `a` is a usage notification of server `id` carrying the evaluation `usage`.
pub open spec fn is_usage_notice(a: AlertAction, id: Seq<char>, usage: Option<ResourceEvaluation>) -> bool {
    a matches AlertAction::Usage { server_id, evaluation } && server_id@ == id && Some(evaluation) == usage
}

/// `a` is a temperature notification of server `id` carrying the evaluation `temperature`.
pub open spec fn is_temperature_notice(
    a: AlertAction,
    id: Seq<char>,
    temperature: Option<ResourceEvaluation>,
) -> bool {
    a matches AlertAction::Temperature { server_id, evaluation } && server_id@ == id && Some(evaluation)
        == temperature
}

/// Every notification due is returned, each resource on its own: the actions for an
/// observation hold a usage notice exactly when the usage evaluation is a notification
/// (whatever the temperature evaluation is), a temperature notice exactly when the
/// temperature evaluation is one, each at most once, and nothing else.
pub proof fn lemma_every_due_notification_returned(
    actions: Seq<AlertAction>,
    id: Seq<char>,
    temperature: Option<ResourceEvaluation>,
    usage: Option<ResourceEvaluation>,
)
    requires
        actions_match(actions, id, temperature, usage),
    ensures
        (exists|i: int| 0 <= i < actions.len() && #[trigger] is_usage_notice(actions[i], id, usage))
            <==> (usage matches Some(e) && e.spec_is_notification()),
        (exists|i: int| 0 <= i < actions.len() && #[trigger] is_temperature_notice(actions[i], id, temperature))
            <==> (temperature matches Some(e) && e.spec_is_notification()),
        forall|i: int|
            0 <= i < actions.len() ==> is_usage_notice(#[trigger] actions[i], id, usage)
                || is_temperature_notice(actions[i], id, temperature),
        forall|i: int, j: int|
            0 <= i < j < actions.len() ==> !(is_usage_notice(#[trigger] actions[i], id, usage)
                && is_usage_notice(#[trigger] actions[j], id, usage)),
        forall|i: int, j: int|
            0 <= i < j < actions.len() ==> !(is_temperature_notice(#[trigger] actions[i], id, temperature)
                && is_temperature_notice(#[trigger] actions[j], id, temperature)),
{
    let t: int = if notifies(temperature) { 1 } else { 0 };
    if notifies(usage) {
        assert(is_usage_notice(actions[t], id, usage));
    }
    if notifies(temperature) {
        assert(is_temperature_notice(actions[0], id, temperature));
    }
}

/// The down-tracking after a service check and whether a notification is sent: a failed
/// check counts, and notifies when its count reaches the grace period (the number of
/// consecutive failures before alerting); a successful check resets the count, and
/// notifies the recovery when the grace period had been reached and the status changes.
/// Either only with an alert configured.
pub open spec fn service_step(
    grace: Option<usize>,
    has_alert: bool,
    progress: ServiceProgress,
    status: ServiceStatus,
) -> (ServiceProgress, bool) {
    let g = service_grace(grace);
    match status {
        ServiceStatus::Up => (
            ServiceProgress { last_status: Some(ServiceStatus::Up), consecutive_down: 0 },
            progress.consecutive_down >= g && has_alert && spec_should_alert(
                progress.last_status,
                ServiceStatus::Up,
            ),
        ),
        _ => (
            ServiceProgress {
                last_status: Some(status),
                consecutive_down: (progress.consecutive_down + 1) as usize,
            },
            progress.consecutive_down + 1 == g && has_alert,
        ),
    }
}

/// A positive down count means the last check failed (the service is down or degraded).
pub open spec fn progress_consistent(p: ServiceProgress) -> bool {
    p.consecutive_down > 0 ==> (p.last_status matches Some(s) && s != ServiceStatus::Up)
}

/// Every check keeps the down-tracking consistent.
pub proof fn lemma_service_step_consistent(
    grace: Option<usize>,
    has_alert: bool,
    progress: ServiceProgress,
    status: ServiceStatus,
)
    requires
        progress.consecutive_down < usize::MAX,
    ensures
        progress_consistent(service_step(grace, has_alert, progress, status).0),
{
}

/// A service whose failures reached its grace period (at least one failure) notifies on
/// recovery exactly when it has an alert.
pub proof fn lemma_recovery_notifies_after_grace(
    grace: Option<usize>,
    has_alert: bool,
    progress: ServiceProgress,
)
    requires
        progress_consistent(progress),
        progress.consecutive_down >= service_grace(grace),
        progress.consecutive_down >= 1,
    ensures
        service_step(grace, has_alert, progress, ServiceStatus::Up).1 == has_alert,
        service_step(grace, has_alert, progress, ServiceStatus::Up).0.consecutive_down == 0,
{
}

/// The grace period of a service: its configured grace, else one failure.
pub open spec fn service_grace(grace: Option<usize>) -> nat {
    match grace {
        Some(g) => g as nat,
        None => 1nat,
    }
}

/// The down-tracking after a sequence of checks, with whether each check notified.
pub open spec fn service_run(
    grace: Option<usize>,
    has_alert: bool,
    start: ServiceProgress,
    statuses: Seq<ServiceStatus>,
) -> (ServiceProgress, Seq<bool>)
    decreases statuses.len(),
{
    if statuses.len() == 0 {
        (start, Seq::empty())
    } else {
        let before = service_run(grace, has_alert, start, statuses.drop_last());
        let step = service_step(grace, has_alert, before.0, statuses.last());
        (step.0, before.1.push(step.1))
    }
}

/// A service with an alert, starting without failures, that fails check after check
/// notifies exactly once: on the failure that brings the count to its grace period.
pub proof fn lemma_service_alerts_after_grace_failures(
    grace: Option<usize>,
    has_alert: bool,
    start: ServiceProgress,
    statuses: Seq<ServiceStatus>,
)
    requires
        start.consecutive_down == 0,
        statuses.len() <= usize::MAX,
        forall|i: int| 0 <= i < statuses.len() ==> #[trigger] statuses[i] != ServiceStatus::Up,
    ensures
        service_run(grace, has_alert, start, statuses).0.consecutive_down == statuses.len(),
        service_run(grace, has_alert, start, statuses).1.len() == statuses.len(),
        forall|i: int|
            0 <= i < statuses.len() ==> (#[trigger] service_run(grace, has_alert, start, statuses).1[i]
                <==> (has_alert && i + 1 == service_grace(grace))),
    decreases statuses.len(),
{
    if statuses.len() > 0 {
        let prefix = statuses.drop_last();
        assert forall|i: int| 0 <= i < prefix.len() implies #[trigger] prefix[i] != ServiceStatus::Up by {
            assert(prefix[i] == statuses[i]);
        }
        lemma_service_alerts_after_grace_failures(grace, has_alert, start, prefix);
        assert(statuses.last() == statuses[statuses.len() - 1]);
    }
}

/// The actor's counter for a resource follows the readings it is fed: when the counter
/// equals the number of consecutive readings at/above the limit so far, the counter after
/// one more reading equals that number for the longer sequence.
pub proof fn lemma_actor_counter_tracks_readings(readings: Seq<bool>, grace: nat, below: bool, counter: usize)
    requires
        counter as nat == trailing_exceed_run(readings),
    ensures
        advanced(Some(ResourceEvaluation::spec_evaluate(below, grace, counter as nat)), counter)
            == trailing_exceed_run(readings.push(below)),
{
    lemma_counter_counts_trailing_exceedances(readings, grace);
    lemma_counter_counts_trailing_exceedances(readings.push(below), grace);
    assert(readings.push(below).drop_last() =~= readings);
}

/// Temperature and CPU usage are tracked independently: the usage evaluation of an
/// observation depends only on the usage counter and the usage reading, and the
/// temperature evaluation only on the temperature counter and the temperature reading.
pub proof fn lemma_resources_independent(
    limits: Option<ResolvedLimits>,
    c1: GraceCounters,
    o1: MetricObservation,
    c2: GraceCounters,
    o2: MetricObservation,
)
    ensures
        (c1.usage == c2.usage && o1.usage_below_limit == o2.usage_below_limit) ==> usage_evaluation(
            limits,
            c1,
            o1,
        ) == usage_evaluation(limits, c2, o2),
        (c1.temperature == c2.temperature && o1.temperature_below_limit
            == o2.temperature_below_limit) ==> temperature_evaluation(limits, c1, o1)
            == temperature_evaluation(limits, c2, o2),
{
}

pub open spec fn server_config_id(c: ResolvedServerConfig) -> Seq<char> {
    spec_server_id(c.ip@, c.port)
}

impl AlertActor {
    pub open spec fn wf(&self) -> bool {
        &&& self.server_ids@.len() == self.server_configs@.len()
        &&& self.server_ids@.len() == self.server_counters@.len()
        &&& self.service_names@.len() == self.service_configs@.len()
        &&& self.service_names@.len() == self.service_progress@.len()
        &&& distinct_keys(self.server_keys())
        &&& distinct_keys(self.service_keys())
        &&& forall|i: int|
            0 <= i < self.service_progress@.len() ==> #[trigger] progress_consistent(self.service_progress@[i])
    }

    pub open spec fn server_keys(&self) -> Seq<Seq<char>> {
        string_keys(self.server_ids@)
    }

    pub open spec fn service_keys(&self) -> Seq<Seq<char>> {
        string_keys(self.service_names@)
    }

    pub open spec fn server_position(&self, id: Seq<char>) -> Option<nat> {
        first_position(self.server_keys(), id)
    }

    pub open spec fn service_position(&self, name: Seq<char>) -> Option<nat> {
        first_position(self.service_keys(), name)
    }

    /// The counters of the server registered under `id`.
    pub open spec fn counters_of(&self, id: Seq<char>) -> Option<GraceCounters> {
        match self.server_position(id) {
            Some(p) => Some(self.server_counters@[p as int]),
            None => None,
        }
    }

    /// The configuration of the server registered under `id`.
    pub open spec fn config_of(&self, id: Seq<char>) -> Option<ResolvedServerConfig> {
        match self.server_position(id) {
            Some(p) => Some(self.server_configs@[p as int]),
            None => None,
        }
    }

    /// The down-tracking of the service registered under `name`.
    pub open spec fn progress_of(&self, name: Seq<char>) -> Option<ServiceProgress> {
        match self.service_position(name) {
            Some(p) => Some(self.service_progress@[p as int]),
            None => None,
        }
    }

    /// The configuration of the service registered under `name`.
    pub open spec fn service_config_of(&self, name: Seq<char>) -> Option<ResolvedServiceConfig> {
        match self.service_position(name) {
            Some(p) => Some(self.service_configs@[p as int]),
            None => None,
        }
    }

    pub open spec fn spec_muted(&self) -> bool {
        self.muted
    }

    /// An actor with no servers or services registered, not muted.
    pub fn new() -> (a: AlertActor)
        ensures
            a.wf(),
            !a.spec_muted(),
            forall|id: Seq<char>| #[trigger] a.counters_of(id) is None,
            forall|name: Seq<char>| #[trigger] a.progress_of(name) is None,
    {
        let a = AlertActor {
            server_ids: Vec::new(),
            server_configs: Vec::new(),
            server_counters: Vec::new(),
            service_names: Vec::new(),
            service_configs: Vec::new(),
            service_progress: Vec::new(),
            muted: false,
        };
        assert forall|id: Seq<char>| #[trigger] a.counters_of(id) is None by {
            assert(a.server_keys().len() == 0);
        }
        assert forall|name: Seq<char>| #[trigger] a.progress_of(name) is None by {
            assert(a.service_keys().len() == 0);
        }
        a
    }

    /// Registers a server under `ip:port` with both counters at zero, replacing any server
    /// registered under the same identifier. No other server or service changes.
    pub fn register_server(&mut self, config: ResolvedServerConfig)
        requires
            old(self).wf(),
        ensures
            final(self).wf(),
            final(self).counters_of(server_config_id(config)) == Some(
                GraceCounters { temperature: 0, usage: 0 },
            ),
            final(self).config_of(server_config_id(config)) == Some(config),
            forall|other: Seq<char>|
                other != server_config_id(config) ==> #[trigger] final(self).counters_of(other)
                    == old(self).counters_of(other) && final(self).config_of(other) == old(self).config_of(other),
            final(self).service_keys() == old(self).service_keys(),
            final(self).service_progress@ == old(self).service_progress@,
            final(self).service_configs@ == old(self).service_configs@,
            final(self).spec_muted() == old(self).spec_muted(),
    {
        let id = server_id(config.ip.as_str(), config.port);
        let ghost key = id@;
        let ghost old_keys = self.server_keys();
        let zero = GraceCounters { temperature: 0, usage: 0 };
        match find_key(&self.server_ids, id.as_str()) {
            Some(i) => {
                proof {
                    lemma_first_position(old_keys, key);
                }
                self.server_configs.set(i, config);
                self.server_counters.set(i, zero);
                proof {
                    assert(self.server_keys() == old_keys);
                    assert forall|other: Seq<char>| other != key implies #[trigger] self.counters_of(
                        other,
                    ) == old(self).counters_of(other) && self.config_of(other) == old(self).config_of(other) by {
                        lemma_first_position(old_keys, other);
                        if let Some(q) = first_position(old_keys, other) {
                            assert(q != i);
                        }
                    }
                }
            },
            None => {
                self.server_ids.push(id);
                self.server_configs.push(config);
                self.server_counters.push(zero);
                proof {
                    assert(self.server_keys() =~= old_keys.push(key));
                    lemma_distinct_push(old_keys, key);
                    lemma_first_position_push(old_keys, key, key);
                    assert forall|other: Seq<char>| other != key implies #[trigger] self.counters_of(
                        other,
                    ) == old(self).counters_of(other) && self.config_of(other) == old(self).config_of(other) by {
                        lemma_first_position_push(old_keys, key, other);
                        lemma_first_position(old_keys, other);
                    }
                }
            },
        }
    }

    /// Registers a service under its name with no status seen and no failures counted,
    /// replacing any service registered under the same name. No other service or server
    /// changes.
    pub fn register_service(&mut self, config: ResolvedServiceConfig)
        requires
            old(self).wf(),
        ensures
            final(self).wf(),
            final(self).progress_of(config.name@) == Some(
                ServiceProgress { last_status: None, consecutive_down: 0 },
            ),
            final(self).service_config_of(config.name@) == Some(config),
            forall|other: Seq<char>|
                other != config.name@ ==> #[trigger] final(self).progress_of(other) == old(self).progress_of(other) && final(self).service_config_of(other) == old(self).service_config_of(other),
            final(self).server_keys() == old(self).server_keys(),
            final(self).server_counters@ == old(self).server_counters@,
            final(self).server_configs@ == old(self).server_configs@,
            final(self).spec_muted() == old(self).spec_muted(),
    {
        let name = config.name.clone();
        let ghost key = name@;
        let ghost old_keys = self.service_keys();
        let fresh = ServiceProgress { last_status: None, consecutive_down: 0 };
        match find_key(&self.service_names, name.as_str()) {
            Some(i) => {
                proof {
                    lemma_first_position(old_keys, key);
                }
                self.service_configs.set(i, config);
                self.service_progress.set(i, fresh);
                proof {
                    assert(self.service_keys() == old_keys);
                    assert forall|other: Seq<char>| other != key implies #[trigger] self.progress_of(
                        other,
                    ) == old(self).progress_of(other) && self.service_config_of(other) == old(self).service_config_of(other) by {
                        lemma_first_position(old_keys, other);
                        if let Some(q) = first_position(old_keys, other) {
                            assert(q != i);
                        }
                    }
                }
            },
            None => {
                self.service_names.push(name);
                self.service_configs.push(config);
                self.service_progress.push(fresh);
                proof {
                    assert(self.service_keys() =~= old_keys.push(key));
                    lemma_distinct_push(old_keys, key);
                    lemma_first_position_push(old_keys, key, key);
                    assert forall|other: Seq<char>| other != key implies #[trigger] self.progress_of(
                        other,
                    ) == old(self).progress_of(other) && self.service_config_of(other) == old(self).service_config_of(other) by {
                        lemma_first_position_push(old_keys, key, other);
                        lemma_first_position(old_keys, other);
                    }
                }
            },
        }
    }

    /// Whether alerts are muted.
    pub fn is_muted(&self) -> (b: bool)
        ensures
            b == self.spec_muted(),
    {
        self.muted
    }

    /// The limit values configured for the server registered under `server_id`.
    pub fn thresholds(&self, server_id: &str) -> (t: Option<Thresholds>)
        requires
            self.wf(),
        ensures
            match self.config_of(server_id@) {
                None => t is None,
                Some(c) => t == Some(
                    Thresholds {
                        temperature: match temperature_limit(c.limits) {
                            Some(l) => Some(l.limit),
                            None => None,
                        },
                        usage: match usage_limit(c.limits) {
                            Some(l) => Some(l.limit),
                            None => None,
                        },
                    },
                ),
            },
    {
        match find_key(&self.server_ids, server_id) {
            None => None,
            Some(i) => {
                proof {
                    lemma_first_position(self.server_keys(), server_id@);
                }
                let c = &self.server_configs[i];
                match &c.limits {
                    None => Some(Thresholds { temperature: None, usage: None }),
                    Some(l) => {
                        let temperature = match &l.temperature {
                            Some(t) => Some(t.limit),
                            None => None,
                        };
                        let usage = match &l.usage {
                            Some(u) => Some(u.limit),
                            None => None,
                        };
                        Some(Thresholds { temperature, usage })
                    },
                }
            },
        }
    }

    /// Whether handling `obs` leaves every counter in range: a counter that the observation
    /// raises (a configured resource read at/above its limit) is below its maximum.
    pub open spec fn spec_can_record(&self, obs: MetricObservation) -> bool {
        self.spec_muted() || match (self.counters_of(obs.server_id@), self.config_of(obs.server_id@)) {
            (Some(c), Some(cfg)) => {
                &&& (temperature_limit(cfg.limits) is Some && obs.temperature_below_limit == Some(
                    false,
                )) ==> c.temperature < usize::MAX
                &&& (usage_limit(cfg.limits) is Some && !obs.usage_below_limit) ==> c.usage
                    < usize::MAX
            },
            _ => true,
        }
    }

    /// Whether handling `obs` leaves every counter in range (see [`Self::spec_can_record`]).
    pub fn can_record(&self, obs: &MetricObservation) -> (b: bool)
        requires
            self.wf(),
        ensures
            b == self.spec_can_record(*obs),
    {
        if self.muted {
            return true;
        }
        match find_key(&self.server_ids, obs.server_id.as_str()) {
            None => true,
            Some(i) => {
                proof {
                    lemma_first_position(self.server_keys(), obs.server_id@);
                }
                let c = self.server_counters[i];
                let (has_t, has_u) = match &self.server_configs[i].limits {
                    Some(l) => (l.temperature.is_some(), l.usage.is_some()),
                    None => (false, false),
                };
                let t_ok = !(has_t && obs.temperature_below_limit == Some(false))
                    || c.temperature < usize::MAX;
                let u_ok = !(has_u && !obs.usage_below_limit) || c.usage < usize::MAX;
                t_ok && u_ok
            },
        }
    }

    /// Whether handling the service check `obs` leaves the down count in range: a failed
    /// check of a registered service raises it, so it must be below its maximum.
    pub open spec fn spec_can_record_check(&self, obs: ServiceCheckObservation) -> bool {
        self.spec_muted() || match self.progress_of(obs.service_name@) {
            Some(p) => obs.status != ServiceStatus::Up ==> p.consecutive_down < usize::MAX,
            None => true,
        }
    }

    /// Whether handling the service check `obs` leaves the down count in range.
    pub fn can_record_check(&self, obs: &ServiceCheckObservation) -> (b: bool)
        requires
            self.wf(),
        ensures
            b == self.spec_can_record_check(*obs),
    {
        if self.muted {
            return true;
        }
        match find_key(&self.service_names, obs.service_name.as_str()) {
            None => true,
            Some(i) => {
                proof {
                    lemma_first_position(self.service_keys(), obs.service_name@);
                }
                obs.status == ServiceStatus::Up || self.service_progress[i].consecutive_down
                    < usize::MAX
            },
        }
    }

    /// Handles a metric event as the actor's loop does: ignored while muted or for an
    /// unregistered server; otherwise each configured resource with a reading is evaluated
    /// against its limit and grace setting, its counter advanced, and the due notifications
    /// returned (temperature first). Only that server's counters change.
    pub fn on_metric_event(&mut self, obs: &MetricObservation) -> (actions: Vec<AlertAction>)
        requires
            old(self).wf(),
            old(self).spec_can_record(*obs),
        ensures
            final(self).wf(),
            final(self).server_keys() == old(self).server_keys(),
            final(self).server_configs@ == old(self).server_configs@,
            final(self).service_keys() == old(self).service_keys(),
            final(self).service_progress@ == old(self).service_progress@,
            final(self).service_configs@ == old(self).service_configs@,
            final(self).spec_muted() == old(self).spec_muted(),
            forall|other: Seq<char>|
                other != obs.server_id@ ==> #[trigger] final(self).counters_of(other) == old(self).counters_of(other),
            old(self).spec_muted() ==> final(self).counters_of(obs.server_id@) == old(self).counters_of(obs.server_id@) && actions@.len() == 0,
            !old(self).spec_muted() ==> match (
                old(self).counters_of(obs.server_id@),
                old(self).config_of(obs.server_id@),
            ) {
                (Some(c), Some(cfg)) => {
                    let t = temperature_evaluation(cfg.limits, c, *obs);
                    let u = usage_evaluation(cfg.limits, c, *obs);
                    &&& final(self).counters_of(obs.server_id@) matches Some(n) && n.temperature
                        == advanced(t, c.temperature) && n.usage == advanced(u, c.usage)
                    &&& actions_match(actions@, obs.server_id@, t, u)
                },
                _ => final(self).counters_of(obs.server_id@) is None && actions@.len() == 0,
            },
    {
        let ghost old_keys = self.server_keys();
        let ghost key = obs.server_id@;
        let mut actions: Vec<AlertAction> = Vec::new();
        if self.muted {
            return actions;
        }
        let idx = find_key(&self.server_ids, obs.server_id.as_str());
        let i = match idx {
            None => {
                return actions;
            },
            Some(i) => i,
        };
        proof {
            lemma_first_position(old_keys, key);
        }
        let c = self.server_counters[i];
        let mut next = c;
        let ghost cfg = self.server_configs@[i as int];
        let ghost t_eval = temperature_evaluation(cfg.limits, c, *obs);
        let ghost u_eval = usage_evaluation(cfg.limits, c, *obs);
        let limits = &self.server_configs[i].limits;
        match limits {
            None => {},
            Some(l) => {
                match (&l.temperature, obs.temperature_below_limit) {
                    (Some(tl), Some(below)) => {
                        let grace = match tl.grace {
                            Some(g) => g,
                            None => 0,
                        };
                        let (evaluation, counter) = track_reading(below, grace, c.temperature);
                        next.temperature = counter;
                        if evaluation.is_notification() {
                            actions.push(
                                AlertAction::Temperature {
                                    server_id: obs.server_id.clone(),
                                    evaluation,
                                },
                            );
                        }
                    },
                    _ => {},
                }
                match &l.usage {
                    Some(ul) => {
                        let grace = match ul.grace {
                            Some(g) => g,
                            None => 0,
                        };
                        let (evaluation, counter) = track_reading(
                            obs.usage_below_limit,
                            grace,
                            c.usage,
                        );
                        next.usage = counter;
                        if evaluation.is_notification() {
                            actions.push(
                                AlertAction::Usage { server_id: obs.server_id.clone(), evaluation },
                            );
                        }
                    },
                    None => {},
                }
            },
        }
        self.server_counters.set(i, next);
        proof {
            assert(self.server_keys() == old_keys);
            assert forall|other: Seq<char>| other != key implies #[trigger] self.counters_of(other)
                == old(self).counters_of(other) by {
                lemma_first_position(old_keys, other);
                if let Some(q) = first_position(old_keys, other) {
                    assert(q != i);
                }
            }
        }
        actions
    }

    /// Handles a service check as the actor's loop does: ignored while muted or for an
    /// unregistered service; otherwise the service's down-tracking advances by
    /// [`service_step`] and the notification, when one is due, is returned with the
    /// service's alert target.
    pub fn on_service_check_event(&mut self, obs: &ServiceCheckObservation) -> (action: Option<
        ServiceAlertAction,
    >)
        requires
            old(self).wf(),
            old(self).spec_can_record_check(*obs),
        ensures
            final(self).wf(),
            final(self).service_keys() == old(self).service_keys(),
            final(self).service_configs@ == old(self).service_configs@,
            final(self).server_keys() == old(self).server_keys(),
            final(self).server_counters@ == old(self).server_counters@,
            final(self).server_configs@ == old(self).server_configs@,
            final(self).spec_muted() == old(self).spec_muted(),
            forall|other: Seq<char>|
                other != obs.service_name@ ==> #[trigger] final(self).progress_of(other) == old(self).progress_of(other),
            old(self).spec_muted() ==> final(self).progress_of(obs.service_name@) == old(self).progress_of(obs.service_name@) && action is None,
            !old(self).spec_muted() ==> match (
                old(self).progress_of(obs.service_name@),
                old(self).service_config_of(obs.service_name@),
            ) {
                (Some(p), Some(cfg)) => {
                    let step = service_step(cfg.grace, cfg.alert is Some, p, obs.status);
                    &&& final(self).progress_of(obs.service_name@) == Some(step.0)
                    &&& (action is Some <==> step.1)
                    &&& action matches Some(a) ==> {
                        &&& Some(a.alert) == cfg.alert
                        &&& a.service_name@ == obs.service_name@
                        &&& a.url@ == obs.url@
                        &&& a.previous_status == p.last_status
                        &&& a.current_status == obs.status
                        &&& a.error_message == (if obs.status == ServiceStatus::Up {
                            None
                        } else {
                            obs.error_message
                        })
                    }
                },
                _ => final(self).progress_of(obs.service_name@) is None && action is None,
            },
    {
        let ghost old_keys = self.service_keys();
        let ghost key = obs.service_name@;
        if self.muted {
            return None;
        }
        let i = match find_key(&self.service_names, obs.service_name.as_str()) {
            None => {
                return None;
            },
            Some(i) => i,
        };
        proof {
            lemma_first_position(old_keys, key);
        }
        let p = self.service_progress[i];
        let cfg = &self.service_configs[i];
        let grace: usize = match cfg.grace {
            Some(g) => g,
            None => 1,
        };
        let (next, send, error_message) = match obs.status {
            ServiceStatus::Up => {
                let send = p.consecutive_down >= grace && cfg.alert.is_some()
                    && should_send_service_alert(p.last_status, ServiceStatus::Up);
                (
                    ServiceProgress { last_status: Some(ServiceStatus::Up), consecutive_down: 0 },
                    send,
                    None,
                )
            },
            _ => {
                let down = p.consecutive_down + 1;
                let send = down == grace && cfg.alert.is_some();
                (
                    ServiceProgress { last_status: Some(obs.status), consecutive_down: down },
                    send,
                    copy_error(&obs.error_message),
                )
            },
        };
        let action = if send {
            match &cfg.alert {
                Some(alert) => Some(
                    ServiceAlertAction {
                        alert: alert.duplicate(),
                        service_name: obs.service_name.clone(),
                        url: obs.url.clone(),
                        previous_status: p.last_status,
                        current_status: obs.status,
                        error_message,
                    },
                ),
                None => None,
            }
        } else {
            None
        };
        self.service_progress.set(i, next);
        proof {
            assert(self.service_keys() == old_keys);
            assert forall|other: Seq<char>| other != key implies #[trigger] self.progress_of(other)
                == old(self).progress_of(other) by {
                lemma_first_position(old_keys, other);
                if let Some(q) = first_position(old_keys, other) {
                    assert(q != i);
                }
            }
        }
        action
    }

    /// A snapshot of the state of the server registered under `server_id`, taken at `now`.
    pub fn get_alert_state(&self, server_id: &str, now: i64) -> (s: Option<AlertState>)
        requires
            self.wf(),
        ensures
            match self.counters_of(server_id@) {
                None => s is None,
                Some(c) => s matches Some(st) && st.server_id@ == server_id@
                    && st.cpu_consecutive_exceeds == c.usage && st.temp_consecutive_exceeds
                    == c.temperature && st.last_evaluation == now,
            },
    {
        match find_key(&self.server_ids, server_id) {
            None => None,
            Some(i) => {
                proof {
                    lemma_first_position(self.server_keys(), server_id@);
                }
                let c = self.server_counters[i];
                Some(
                    AlertState {
                        server_id: String::from_str(server_id),
                        cpu_consecutive_exceeds: c.usage,
                        temp_consecutive_exceeds: c.temperature,
                        last_evaluation: now,
                    },
                )
            },
        }
    }

    /// Answers a request as the actor's loop does: a state query is answered with the
    /// snapshot, muting and unmuting set the flag, shutdown stops the loop.
    pub fn handle_request(&mut self, request: AlertRequest, now: i64) -> (reply: AlertReply)
        requires
            old(self).wf(),
        ensures
            final(self).wf(),
            final(self).server_ids == old(self).server_ids,
            final(self).server_configs == old(self).server_configs,
            final(self).server_counters == old(self).server_counters,
            final(self).service_names == old(self).service_names,
            final(self).service_configs == old(self).service_configs,
            final(self).service_progress == old(self).service_progress,
            match request {
                AlertRequest::GetState { server_id } => final(self).spec_muted() == old(self).spec_muted() && match reply {
                    AlertReply::State(s) => match old(self).counters_of(server_id@) {
                        None => s is None,
                        Some(c) => s matches Some(st) && st.server_id@ == server_id@
                            && st.cpu_consecutive_exceeds == c.usage
                            && st.temp_consecutive_exceeds == c.temperature
                            && st.last_evaluation == now,
                    },
                    _ => false,
                },
                AlertRequest::MuteAlerts { .. } => final(self).spec_muted() && reply
                    is Continue,
                AlertRequest::UnmuteAlerts => !final(self).spec_muted() && reply is Continue,
                AlertRequest::Shutdown => final(self).spec_muted() == old(self).spec_muted()
                    && reply is Stop,
            },
    {
        match request {
            AlertRequest::GetState { server_id } => AlertReply::State(
                self.get_alert_state(server_id.as_str(), now),
            ),
            AlertRequest::MuteAlerts { .. } => {
                self.muted = true;
                AlertReply::Continue
            },
            AlertRequest::UnmuteAlerts => {
                self.muted = false;
                AlertReply::Continue
            },
            AlertRequest::Shutdown => AlertReply::Stop,
        }
    }
}

fn copy_error(e: &Option<String>) -> (r: Option<String>)
    ensures
        r == *e,
{
    match e {
        Some(s) => Some(s.clone()),
        None => None,
    }
}

} // verus!
