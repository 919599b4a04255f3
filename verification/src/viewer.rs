//! The terminal viewer's state: tabs, selections, the alert timeline, per-server metric
//! history, connection tracking, and the handling of stream events and key presses.
//!
//! The viewer keeps metric payloads of a type `M` it never looks into.
use std::collections::VecDeque;
use vstd::prelude::*;
use vstd::string::*;
use crate::alert_engine::{distinct_keys, lemma_distinct_push, first_position, lemma_first_position, lemma_first_position_absent,
    lemma_first_position_unique, string_keys};
use crate::api::{ServerInfo, ServiceInfo};
use crate::status::ServiceStatus;
use crate::text::{decimal, push_decimal};

verus! {

/// Most metric points kept per server.
pub const MAX_METRICS_BUFFER: usize = 1000;

/// Most alerts kept in the timeline.
pub const MAX_ALERTS_BUFFER: usize = 500;

// ---------------------------------------------------------------------------
// Tabs
// ---------------------------------------------------------------------------

/// The viewer's tabs.
#[derive(Debug, Clone, Copy, PartialEq, Eq, Structural)]
pub enum Tab {
    Servers,
    Services,
    Alerts,
}

impl Tab {
    pub open spec fn spec_next(self) -> Tab {
        match self {
            Tab::Servers => Tab::Services,
            Tab::Services => Tab::Alerts,
            Tab::Alerts => Tab::Servers,
        }
    }

    pub open spec fn spec_previous(self) -> Tab {
        match self {
            Tab::Servers => Tab::Alerts,
            Tab::Services => Tab::Servers,
            Tab::Alerts => Tab::Services,
        }
    }

    /// The tab to the right, wrapping around.
    pub fn next(&self) -> (t: Tab)
        ensures
            t == self.spec_next(),
    {
        match self {
            Tab::Servers => Tab::Services,
            Tab::Services => Tab::Alerts,
            Tab::Alerts => Tab::Servers,
        }
    }

    /// The tab to the left, wrapping around.
    pub fn previous(&self) -> (t: Tab)
        ensures
            t == self.spec_previous(),
    {
        match self {
            Tab::Servers => Tab::Alerts,
            Tab::Services => Tab::Servers,
            Tab::Alerts => Tab::Services,
        }
    }

    pub open spec fn spec_title(self) -> Seq<char> {
        match self {
            Tab::Servers => "Servers"@,
            Tab::Services => "Services"@,
            Tab::Alerts => "Alerts"@,
        }
    }

    /// The tab's title.
    pub fn title(&self) -> (s: &'static str)
        ensures
            s@ == self.spec_title(),
    {
        match self {
            Tab::Servers => "Servers",
            Tab::Services => "Services",
            Tab::Alerts => "Alerts",
        }
    }
}

/// Moving right then left, or left then right, returns to the same tab; three moves in
/// one direction go all the way round.
pub proof fn lemma_tab_navigation(t: Tab)
    ensures
        t.spec_next().spec_previous() == t,
        t.spec_previous().spec_next() == t,
        t.spec_next().spec_next().spec_next() == t,
        t.spec_previous().spec_previous().spec_previous() == t,
{
}

// ---------------------------------------------------------------------------
// Alerts, metric points, configuration
// ---------------------------------------------------------------------------

/// Severity of a timeline entry.
#[derive(Debug, Clone, Copy, PartialEq, Eq, Structural)]
pub enum AlertSeverity {
    Info,
    Warning,
    Critical,
}

/// An entry of the alert timeline (timestamp in Unix milliseconds).
#[derive(Debug, Clone)]
pub struct AlertEntry {
    pub timestamp: i64,
    pub server_id: String,
    pub alert_type: String,
    pub message: String,
    pub severity: AlertSeverity,
}

/// A metric payload with the time it was taken (Unix milliseconds).
#[derive(Debug, Clone)]
pub struct MetricPoint<M> {
    pub timestamp: i64,
    pub metrics: M,
}

/// The viewer's configuration.
#[derive(Debug, Clone)]
pub struct Config {
    pub api_url: String,
    pub api_token: Option<String>,
    pub refresh_interval: u64,
    pub max_metrics: usize,
    pub time_window_seconds: u64,
    pub debug: bool,
}

/// Default refresh interval in seconds.
pub fn default_refresh_interval() -> (s: u64)
    ensures
        s == 5,
{
    5
}

/// Default number of metrics shown per server.
pub fn default_max_metrics() -> (n: usize)
    ensures
        n == 100,
{
    100
}

/// Default chart time window in seconds.
pub fn default_time_window() -> (s: u64)
    ensures
        s == 300,
{
    300
}

impl Default for Config {
    fn default() -> (c: Self)
        ensures
            c.api_url@ == "http://localhost:8080"@,
            c.api_token is None,
            c.refresh_interval == 5,
            c.max_metrics == 100,
            c.time_window_seconds == 300,
            !c.debug,
    {
        Config {
            api_url: String::from_str("http://localhost:8080"),
            api_token: None,
            refresh_interval: default_refresh_interval(),
            max_metrics: default_max_metrics(),
            time_window_seconds: default_time_window(),
            debug: false,
        }
    }
}

// ---------------------------------------------------------------------------
// Stream events and keys
// ---------------------------------------------------------------------------

/// An event of the live stream.
#[derive(Debug, Clone)]
pub enum WsEvent<M> {
    Metric { server_id: String, display_name: String, timestamp: i64, metrics: M },
    ServiceCheck {
        service_name: String,
        url: String,
        timestamp: i64,
        status: ServiceStatus,
        response_time_ms: Option<u64>,
        http_status_code: Option<u16>,
        ssl_expiry_days: Option<i64>,
        error_message: Option<String>,
    },
}

/// The keys the viewer reacts to.
#[derive(Debug, Clone, Copy, PartialEq, Eq, Structural)]
pub enum ViewerKey {
    Quit,
    NextTab,
    PreviousTab,
    Down,
    Up,
    TogglePause,
    Refresh,
    ClearError,
    Other,
}

/// What the viewer's loop does after a key press.
#[derive(Debug, Clone, Copy, PartialEq, Eq, Structural)]
pub enum KeyOutcome {
    Continue,
    Quit,
    Refresh,
}

// ---------------------------------------------------------------------------
// Application state
// ---------------------------------------------------------------------------

/// The viewer's state.
pub struct AppState<M> {
    pub current_tab: Tab,
    pub servers: Vec<ServerInfo>,
    pub services: Vec<ServiceInfo>,
    pub alerts: VecDeque<AlertEntry>,
    /// Metric history per server: `history_ids[i]` owns `histories[i]`.
    pub history_ids: Vec<String>,
    pub histories: Vec<VecDeque<MetricPoint<M>>>,
    pub selected_server: usize,
    pub selected_service: usize,
    pub selected_alert: usize,
    pub paused: bool,
    /// Time of the last update (Unix milliseconds).
    pub last_update: Option<i64>,
    pub connected: bool,
    pub error_message: Option<String>,
    pub time_window_seconds: u64,
    pub data_limit: usize,
}

/// The points older than `cutoff` at the front of a history removed.
pub open spec fn drop_older<M>(h: Seq<MetricPoint<M>>, cutoff: int) -> Seq<MetricPoint<M>>
    decreases h.len(),
{
    if h.len() > 0 && h[0].timestamp < cutoff {
        drop_older(h.drop_first(), cutoff)
    } else {
        h
    }
}

/// The alert timeline after appending `a`: the oldest alert dropped past the maximum.
pub open spec fn alerts_after_add(alerts: Seq<AlertEntry>, a: AlertEntry) -> Seq<AlertEntry> {
    if alerts.len() + 1 > MAX_ALERTS_BUFFER {
        alerts.push(a).drop_first()
    } else {
        alerts.push(a)
    }
}

/// The lists, selections, tab, pause state and settings of two states agree.
pub open spec fn same_layout<M>(a: AppState<M>, b: AppState<M>) -> bool {
    &&& a.current_tab == b.current_tab
    &&& a.servers == b.servers
    &&& a.services == b.services
    &&& a.selected_server == b.selected_server
    &&& a.selected_service == b.selected_service
    &&& a.selected_alert == b.selected_alert
    &&& a.paused == b.paused
    &&& a.time_window_seconds == b.time_window_seconds
    &&& a.data_limit == b.data_limit
}

/// A history after appending a point: points older than `cutoff` dropped from the front,
/// then the oldest one dropped if more than the maximum remain.
pub open spec fn history_after_add<M>(h: Seq<MetricPoint<M>>, p: MetricPoint<M>, cutoff: int) -> Seq<
    MetricPoint<M>,
> {
    let trimmed = drop_older(h.push(p), cutoff);
    if trimmed.len() > MAX_METRICS_BUFFER {
        trimmed.drop_first()
    } else {
        trimmed
    }
}

proof fn lemma_drop_older_suffix<M>(h: Seq<MetricPoint<M>>, cutoff: int)
    ensures
        drop_older(h, cutoff).len() <= h.len(),
        drop_older(h, cutoff).len() > 0 ==> drop_older(h, cutoff)[0].timestamp >= cutoff,
        drop_older(h, cutoff) == h.skip(h.len() - drop_older(h, cutoff).len()),
    decreases h.len(),
{
    if h.len() > 0 && h[0].timestamp < cutoff {
        lemma_drop_older_suffix(h.drop_first(), cutoff);
        assert(h.drop_first().skip(h.drop_first().len() - drop_older(h, cutoff).len()) =~= h.skip(
            h.len() - drop_older(h, cutoff).len(),
        ));
    } else {
        assert(h.skip(0) =~= h);
    }
}

/// A history never grows past the maximum, and the point just added is kept unless it is
/// itself older than the cutoff.
pub proof fn lemma_history_bounded<M>(h: Seq<MetricPoint<M>>, p: MetricPoint<M>, cutoff: int)
    requires
        h.len() <= MAX_METRICS_BUFFER,
    ensures
        history_after_add(h, p, cutoff).len() <= MAX_METRICS_BUFFER,
        p.timestamp >= cutoff ==> history_after_add(h, p, cutoff).len() > 0
            && history_after_add(h, p, cutoff).last() == p,
{
    lemma_drop_older_suffix(h.push(p), cutoff);
    if p.timestamp >= cutoff {
        lemma_drop_older_keeps_last(h.push(p), cutoff);
    }
}

proof fn lemma_drop_older_drops_old<M>(h: Seq<MetricPoint<M>>, cutoff: int)
    ensures
        forall|i: int|
            0 <= i < h.len() - drop_older(h, cutoff).len() ==> #[trigger] h[i].timestamp < cutoff,
    decreases h.len(),
{
    if h.len() > 0 && h[0].timestamp < cutoff {
        let t = h.drop_first();
        lemma_drop_older_drops_old(t, cutoff);
        assert forall|i: int| 0 <= i < h.len() - drop_older(h, cutoff).len() implies #[trigger] h[i].timestamp
            < cutoff by {
            if i > 0 {
                assert(h[i] == t[i - 1]);
            }
        }
    }
}

/// The history after adding `p` at `cutoff`, described by the number `d` of points dropped
/// for their age: the first `d` points of `full` are older than the cutoff, the next one (if
/// any) is not, and what remains is `full` without them, less one more front point when
/// still longer than the maximum.
pub open spec fn pruned_by_age<M>(full: Seq<MetricPoint<M>>, d: int, cutoff: int, r: Seq<MetricPoint<M>>) -> bool {
    &&& 0 <= d <= full.len()
    &&& forall|i: int| 0 <= i < d ==> #[trigger] full[i].timestamp < cutoff
    &&& d < full.len() ==> full[d].timestamp >= cutoff
    &&& r == (if full.len() - d > MAX_METRICS_BUFFER {
        full.skip(d + 1)
    } else {
        full.skip(d)
    })
}

/// Adding a point to a history of at most the maximum keeps a suffix of the history with
/// the point: the leading points older than the cutoff are dropped, then one more front
/// point if the rest is still longer than the maximum, so the result never exceeds it.
pub proof fn lemma_history_pruning<M>(h: Seq<MetricPoint<M>>, p: MetricPoint<M>, cutoff: int)
    requires
        h.len() <= MAX_METRICS_BUFFER,
    ensures
        exists|d: int| #[trigger] pruned_by_age(h.push(p), d, cutoff, history_after_add(h, p, cutoff)),
        history_after_add(h, p, cutoff).len() <= MAX_METRICS_BUFFER,
{
    let full = h.push(p);
    let kept = drop_older(full, cutoff);
    lemma_drop_older_suffix(full, cutoff);
    lemma_drop_older_drops_old(full, cutoff);
    let d = full.len() - kept.len();
    if d < full.len() {
        assert(kept[0] == full[d]);
    }
    if kept.len() > MAX_METRICS_BUFFER {
        assert(kept.drop_first() =~= full.skip(d + 1));
    }
    assert(pruned_by_age(full, d, cutoff, history_after_add(h, p, cutoff)));
    lemma_history_bounded(h, p, cutoff);
}

proof fn lemma_drop_older_keeps_last<M>(h: Seq<MetricPoint<M>>, cutoff: int)
    requires
        h.len() > 0,
        h.last().timestamp >= cutoff,
    ensures
        drop_older(h, cutoff).len() > 0,
        drop_older(h, cutoff).last() == h.last(),
    decreases h.len(),
{
    if h[0].timestamp < cutoff {
        assert(h.len() > 1);
        assert(h.drop_first().last() == h.last());
        lemma_drop_older_keeps_last(h.drop_first(), cutoff);
    }
}

/// The selection after moving down in a list of `len` items, wrapping around.
pub open spec fn spec_select_next(selected: nat, len: nat) -> nat {
    if len == 0 {
        selected
    } else {
        ((selected + 1) % len) as nat
    }
}

/// The selection after moving up in a list of `len` items, wrapping around.
pub open spec fn spec_select_previous(selected: nat, len: nat) -> nat {
    if len == 0 {
        selected
    } else if selected == 0 {
        (len - 1) as nat
    } else {
        (selected - 1) as nat
    }
}

/// Moving down then up (or up then down) returns to the same item of a list.
pub proof fn lemma_selection_round_trip(selected: nat, len: nat)
    requires
        selected < len,
    ensures
        spec_select_previous(spec_select_next(selected, len), len) == selected,
        spec_select_next(spec_select_previous(selected, len), len) == selected,
{
    if selected + 1 < len {
        vstd::arithmetic::div_mod::lemma_small_mod((selected + 1) as nat, len);
    } else {
        vstd::arithmetic::div_mod::lemma_mod_self_0(len as int);
    }
    if selected > 0 {
        vstd::arithmetic::div_mod::lemma_small_mod(selected, len);
    } else {
        vstd::arithmetic::div_mod::lemma_mod_self_0(len as int);
    }
}

fn select_next_index(selected: usize, len: usize) -> (r: usize)
    ensures
        r == spec_select_next(selected as nat, len as nat),
{
    if len == 0 {
        selected
    } else {
        let m = selected % len;
        proof {
            vstd::arithmetic::div_mod::lemma_mod_bound(selected as int, len as int);
            vstd::arithmetic::div_mod::lemma_add_mod_noop(selected as int, 1, len as int);
            if len > 1 {
                vstd::arithmetic::div_mod::lemma_small_mod(1, len as nat);
            } else {
                vstd::arithmetic::div_mod::lemma_mod_self_0(1);
                vstd::arithmetic::div_mod::lemma_small_mod(0, 1);
            }
            vstd::arithmetic::div_mod::lemma_mod_twice((m + 1) as int, len as int);
        }
        (m + 1) % len
    }
}

fn select_previous_index(selected: usize, len: usize) -> (r: usize)
    ensures
        r == spec_select_previous(selected as nat, len as nat),
{
    if len == 0 {
        selected
    } else if selected == 0 {
        len - 1
    } else {
        selected - 1
    }
}

/// The selection after the list is replaced by one of `len` items: moved to the last
/// item when it is past the end of a non-empty list.
pub open spec fn spec_clamped(selected: nat, len: nat) -> nat {
    if selected >= len && len > 0 {
        (len - 1) as nat
    } else {
        selected
    }
}

/// The message shown when no data came for too long.
pub open spec fn spec_timeout_message(timeout_seconds: u64) -> Seq<char> {
    "Connection timeout (no data for "@ + decimal(timeout_seconds as nat) + "s)"@
}

fn timeout_message(timeout_seconds: u64) -> (s: String)
    ensures
        s@ == spec_timeout_message(timeout_seconds),
{
    let mut s = String::from_str("Connection timeout (no data for ");
    push_decimal(&mut s, timeout_seconds);
    s.append("s)");
    s
}

/// Whole seconds in a span of milliseconds, truncated toward zero.
pub open spec fn whole_seconds(millis: int) -> int {
    if millis >= 0 {
        millis / 1000
    } else {
        -((-millis) / 1000)
    }
}

fn elapsed_whole_seconds(since: i64, now: i64) -> (s: i128)
    ensures
        s == whole_seconds(now - since),
{
    let d: i128 = now as i128 - since as i128;
    if d >= 0 {
        let q = (d as u128) / 1000;
        q as i128
    } else {
        let q = ((0 - d) as u128) / 1000;
        0 - (q as i128)
    }
}

impl<M> AppState<M> {
    pub open spec fn wf(&self) -> bool {
        &&& self.history_ids@.len() == self.histories@.len()
        &&& distinct_keys(string_keys(self.history_ids@))
        &&& self.alerts@.len() <= MAX_ALERTS_BUFFER
        &&& forall|i: int| 0 <= i < self.histories@.len() ==> (#[trigger] self.histories@[i])@.len()
            <= MAX_METRICS_BUFFER
    }

    /// The metric history of `id`.
    pub open spec fn history_of(&self, id: Seq<char>) -> Option<Seq<MetricPoint<M>>> {
        match first_position(string_keys(self.history_ids@), id) {
            Some(p) => Some(self.histories@[p as int]@),
            None => None,
        }
    }

    /// A fresh state: servers tab, nothing loaded, not connected, 100 data points.
    pub fn new(time_window_seconds: u64) -> (s: Self)
        ensures
            s.wf(),
            s.current_tab == Tab::Servers,
            s.servers@.len() == 0,
            s.services@.len() == 0,
            s.alerts@.len() == 0,
            forall|id: Seq<char>| #[trigger] s.history_of(id) is None,
            s.selected_server == 0,
            s.selected_service == 0,
            s.selected_alert == 0,
            !s.paused,
            s.last_update is None,
            !s.connected,
            s.error_message is None,
            s.time_window_seconds == time_window_seconds,
            s.data_limit == 100,
    {
        let s = AppState {
            current_tab: Tab::Servers,
            servers: Vec::new(),
            services: Vec::new(),
            alerts: VecDeque::new(),
            history_ids: Vec::new(),
            histories: Vec::new(),
            selected_server: 0,
            selected_service: 0,
            selected_alert: 0,
            paused: false,
            last_update: None,
            connected: false,
            error_message: None,
            time_window_seconds,
            data_limit: 100,
        };
        assert forall|id: Seq<char>| #[trigger] s.history_of(id) is None by {
            assert(string_keys(s.history_ids@).len() == 0);
        }
        s
    }

    fn find_history(&self, id: &str) -> (r: Option<usize>)
        requires
            self.wf(),
        ensures
            match r {
                Some(i) => first_position(string_keys(self.history_ids@), id@) == Some(i as nat),
                None => first_position(string_keys(self.history_ids@), id@) is None,
            },
    {
        let target = String::from_str(id);
        let ghost ks = string_keys(self.history_ids@);
        let mut i: usize = 0;
        while i < self.history_ids.len()
            invariant
                0 <= i <= self.history_ids@.len(),
                ks == string_keys(self.history_ids@),
                target@ == id@,
                forall|j: int| 0 <= j < i ==> #[trigger] ks[j] != id@,
            decreases self.history_ids@.len() - i,
        {
            if self.history_ids[i] == target {
                proof {
                    lemma_first_position_unique(ks, id@, i as int);
                }
                return Some(i);
            }
            i = i + 1;
        }
        proof {
            lemma_first_position_absent(ks, id@);
        }
        None
    }

    /// The cutoff of history at `now`: twice the time window before it.
    pub open spec fn spec_cutoff(&self, now: i64) -> int {
        now - self.time_window_seconds * 2 * 1000
    }

    /// Adds a metric point to the server's history at `now`: points older than twice the
    /// time window are dropped from the front, the history is kept to its maximum, and the
    /// time of the last update becomes `now`. Other histories do not change.
    pub fn add_metric(&mut self, server_id: String, metrics: M, timestamp: i64, now: i64)
        requires
            old(self).wf(),
            now >= i64::MIN + old(self).time_window_seconds * 2000,
        ensures
            final(self).wf(),
            final(self).history_of(server_id@) == Some(
                history_after_add(
                    match old(self).history_of(server_id@) {
                        Some(h) => h,
                        None => Seq::empty(),
                    },
                    MetricPoint { timestamp, metrics },
                    old(self).spec_cutoff(now),
                ),
            ),
            forall|other: Seq<char>|
                other != server_id@ ==> #[trigger] final(self).history_of(other) == old(self).history_of(other),
            final(self).last_update == Some(now),
            same_layout(*old(self), *final(self)),
            final(self).servers == old(self).servers,
            final(self).services == old(self).services,
            final(self).alerts == old(self).alerts,
            final(self).connected == old(self).connected,
            final(self).paused == old(self).paused,
            final(self).error_message == old(self).error_message,
            final(self).time_window_seconds == old(self).time_window_seconds,
    {
        let ghost old_keys = string_keys(self.history_ids@);
        let ghost key = server_id@;
        let cutoff: i64 = (now as i128 - self.time_window_seconds as i128 * 2000) as i64;
        let idx = self.find_history(server_id.as_str());
        proof {
            lemma_first_position(old_keys, key);
        }
        let (pos, mut history) = match idx {
            Some(i) => {
                let h = self.histories.remove(i);
                (i, h)
            },
            None => (self.histories.len(), VecDeque::new()),
        };
        let ghost before = history@;
        let ghost point = MetricPoint { timestamp, metrics };
        history.push_back(MetricPoint { timestamp, metrics });
        let ghost mut rest = before.push(point);
        assert(history@ == rest);
        while history.len() > 0 && history[0].timestamp < cutoff
            invariant
                drop_older(rest, cutoff as int) == drop_older(before.push(point), cutoff as int),
                history@ == rest,
            decreases history@.len(),
        {
            history.pop_front();
            proof {
                rest = rest.drop_first();
            }
        }
        if history.len() > MAX_METRICS_BUFFER {
            history.pop_front();
        }
        proof {
            assert(history@ == history_after_add(before, point, cutoff as int));
            lemma_drop_older_suffix(before.push(point), cutoff as int);
        }
        match idx {
            Some(i) => {
                self.histories.insert(i, history);
            },
            None => {
                self.history_ids.push(server_id);
                self.histories.push(history);
            },
        }
        self.last_update = Some(now);
        proof {
            if idx is Some {
                assert(string_keys(self.history_ids@) == old_keys);
            } else {
                assert(string_keys(self.history_ids@) =~= old_keys.push(key));
                lemma_distinct_push(old_keys, key);
            }
            assert forall|i: int| 0 <= i < self.histories@.len() implies (
            #[trigger] self.histories@[i])@.len() <= MAX_METRICS_BUFFER by {
                if i != pos {
                    if idx is Some {
                        assert(self.histories@[i] == old(self).histories@[i]);
                    } else {
                        assert(self.histories@[i] == old(self).histories@[i]);
                    }
                }
            }
            match idx {
                Some(i) => {
                    assert(self.histories@ =~= old(self).histories@.update(i as int, history));
                    assert forall|other: Seq<char>| other != key implies #[trigger] self.history_of(
                        other,
                    ) == old(self).history_of(other) by {
                        lemma_first_position(old_keys, other);
                        if let Some(q) = first_position(old_keys, other) {
                            assert(q != i);
                        }
                    }
                },
                None => {
                    lemma_first_position_unique(old_keys.push(key), key, old_keys.len() as int);
                    assert forall|other: Seq<char>| other != key implies #[trigger] self.history_of(
                        other,
                    ) == old(self).history_of(other) by {
                        lemma_first_position(old_keys, other);
                        match first_position(old_keys, other) {
                            Some(q) => {
                                lemma_first_position_unique(old_keys.push(key), other, q as int);
                            },
                            None => {
                                lemma_first_position_absent(old_keys.push(key), other);
                            },
                        }
                    }
                },
            }
        }
    }

    /// Appends an alert to the timeline, dropping the oldest past the maximum.
    pub fn add_alert(&mut self, alert: AlertEntry)
        requires
            old(self).wf(),
        ensures
            final(self).wf(),
            final(self).alerts@ == alerts_after_add(old(self).alerts@, alert),
            same_layout(*old(self), *final(self)),
            final(self).history_ids == old(self).history_ids,
            final(self).histories == old(self).histories,
            final(self).servers == old(self).servers,
            final(self).services == old(self).services,
            final(self).selected_alert == old(self).selected_alert,
            final(self).paused == old(self).paused,
            final(self).connected == old(self).connected,
            final(self).error_message == old(self).error_message,
            final(self).last_update == old(self).last_update,
            final(self).time_window_seconds == old(self).time_window_seconds,
            final(self).current_tab == old(self).current_tab,
            final(self).selected_server == old(self).selected_server,
            final(self).selected_service == old(self).selected_service,
            final(self).data_limit == old(self).data_limit,
    {
        self.alerts.push_back(alert);
        if self.alerts.len() > MAX_ALERTS_BUFFER {
            self.alerts.pop_front();
        }
    }

    /// Replaces the server list, keeping the selection inside a non-empty list.
    pub fn update_servers(&mut self, servers: Vec<ServerInfo>)
        ensures
            final(self).servers@ == servers@,
            final(self).selected_server == spec_clamped(
                old(self).selected_server as nat,
                servers@.len(),
            ),
            final(self).services == old(self).services,
            final(self).alerts == old(self).alerts,
            final(self).history_ids == old(self).history_ids,
            final(self).histories == old(self).histories,
            final(self).selected_service == old(self).selected_service,
            final(self).selected_alert == old(self).selected_alert,
            final(self).current_tab == old(self).current_tab,
            final(self).paused == old(self).paused,
            final(self).connected == old(self).connected,
            final(self).error_message == old(self).error_message,
            final(self).last_update == old(self).last_update,
            final(self).time_window_seconds == old(self).time_window_seconds,
            final(self).data_limit == old(self).data_limit,
    {
        self.servers = servers;
        if self.selected_server >= self.servers.len() && self.servers.len() > 0 {
            self.selected_server = self.servers.len() - 1;
        }
    }

    /// Replaces the service list, keeping the selection inside a non-empty list.
    pub fn update_services(&mut self, services: Vec<ServiceInfo>)
        ensures
            final(self).services@ == services@,
            final(self).selected_service == spec_clamped(
                old(self).selected_service as nat,
                services@.len(),
            ),
            final(self).servers == old(self).servers,
            final(self).alerts == old(self).alerts,
            final(self).history_ids == old(self).history_ids,
            final(self).histories == old(self).histories,
            final(self).selected_server == old(self).selected_server,
            final(self).selected_alert == old(self).selected_alert,
            final(self).current_tab == old(self).current_tab,
            final(self).paused == old(self).paused,
            final(self).connected == old(self).connected,
            final(self).error_message == old(self).error_message,
            final(self).last_update == old(self).last_update,
            final(self).time_window_seconds == old(self).time_window_seconds,
            final(self).data_limit == old(self).data_limit,
    {
        self.services = services;
        if self.selected_service >= self.services.len() && self.services.len() > 0 {
            self.selected_service = self.services.len() - 1;
        }
    }

    /// Moves the selection of the current tab down, wrapping around.
    pub fn select_next(&mut self)
        ensures
            final(self).current_tab == old(self).current_tab,
            final(self).selected_server == (if old(self).current_tab == Tab::Servers {
                spec_select_next(old(self).selected_server as nat, old(self).servers@.len())
            } else {
                old(self).selected_server as nat
            }),
            final(self).selected_service == (if old(self).current_tab == Tab::Services {
                spec_select_next(old(self).selected_service as nat, old(self).services@.len())
            } else {
                old(self).selected_service as nat
            }),
            final(self).selected_alert == (if old(self).current_tab == Tab::Alerts {
                spec_select_next(old(self).selected_alert as nat, old(self).alerts@.len())
            } else {
                old(self).selected_alert as nat
            }),
            final(self).servers == old(self).servers,
            final(self).services == old(self).services,
            final(self).alerts == old(self).alerts,
            final(self).history_ids == old(self).history_ids,
            final(self).histories == old(self).histories,
            final(self).paused == old(self).paused,
            final(self).connected == old(self).connected,
            final(self).error_message == old(self).error_message,
            final(self).last_update == old(self).last_update,
            final(self).time_window_seconds == old(self).time_window_seconds,
            final(self).data_limit == old(self).data_limit,
    {
        match self.current_tab {
            Tab::Servers => {
                self.selected_server = select_next_index(self.selected_server, self.servers.len());
            },
            Tab::Services => {
                self.selected_service = select_next_index(
                    self.selected_service,
                    self.services.len(),
                );
            },
            Tab::Alerts => {
                self.selected_alert = select_next_index(self.selected_alert, self.alerts.len());
            },
        }
    }

    /// Moves the selection of the current tab up, wrapping around.
    pub fn select_previous(&mut self)
        ensures
            final(self).current_tab == old(self).current_tab,
            final(self).selected_server == (if old(self).current_tab == Tab::Servers {
                spec_select_previous(old(self).selected_server as nat, old(self).servers@.len())
            } else {
                old(self).selected_server as nat
            }),
            final(self).selected_service == (if old(self).current_tab == Tab::Services {
                spec_select_previous(old(self).selected_service as nat, old(self).services@.len())
            } else {
                old(self).selected_service as nat
            }),
            final(self).selected_alert == (if old(self).current_tab == Tab::Alerts {
                spec_select_previous(old(self).selected_alert as nat, old(self).alerts@.len())
            } else {
                old(self).selected_alert as nat
            }),
            final(self).servers == old(self).servers,
            final(self).services == old(self).services,
            final(self).alerts == old(self).alerts,
            final(self).history_ids == old(self).history_ids,
            final(self).histories == old(self).histories,
            final(self).paused == old(self).paused,
            final(self).connected == old(self).connected,
            final(self).error_message == old(self).error_message,
            final(self).last_update == old(self).last_update,
            final(self).time_window_seconds == old(self).time_window_seconds,
            final(self).data_limit == old(self).data_limit,
    {
        match self.current_tab {
            Tab::Servers => {
                self.selected_server = select_previous_index(
                    self.selected_server,
                    self.servers.len(),
                );
            },
            Tab::Services => {
                self.selected_service = select_previous_index(
                    self.selected_service,
                    self.services.len(),
                );
            },
            Tab::Alerts => {
                self.selected_alert = select_previous_index(
                    self.selected_alert,
                    self.alerts.len(),
                );
            },
        }
    }

    /// The selected server, if the selection is inside the list.
    pub fn get_selected_server(&self) -> (s: Option<&ServerInfo>)
        ensures
            (self.selected_server < self.servers@.len()) ==> s == Some(
                &self.servers@[self.selected_server as int],
            ),
            (self.selected_server >= self.servers@.len()) ==> s is None,
    {
        if self.selected_server < self.servers.len() {
            Some(&self.servers[self.selected_server])
        } else {
            None
        }
    }

    /// The metric history of a server.
    pub fn get_metrics_history(&self, server_id: &str) -> (h: Option<&VecDeque<MetricPoint<M>>>)
        requires
            self.wf(),
        ensures
            match self.history_of(server_id@) {
                Some(s) => h matches Some(v) && v@ == s,
                None => h is None,
            },
    {
        match self.find_history(server_id) {
            Some(i) => {
                proof {
                    lemma_first_position(string_keys(self.history_ids@), server_id@);
                }
                Some(&self.histories[i])
            },
            None => None,
        }
    }

    /// Pauses or resumes live updates.
    pub fn toggle_pause(&mut self)
        ensures
            final(self).paused == !old(self).paused,
            final(self).connected == old(self).connected,
            final(self).error_message == old(self).error_message,
            final(self).current_tab == old(self).current_tab,
            final(self).servers == old(self).servers,
            final(self).services == old(self).services,
            final(self).alerts == old(self).alerts,
            final(self).history_ids == old(self).history_ids,
            final(self).histories == old(self).histories,
            final(self).selected_server == old(self).selected_server,
            final(self).selected_service == old(self).selected_service,
            final(self).selected_alert == old(self).selected_alert,
            final(self).last_update == old(self).last_update,
            final(self).time_window_seconds == old(self).time_window_seconds,
            final(self).data_limit == old(self).data_limit,
    {
        self.paused = !self.paused;
    }

    /// Clears the error message.
    pub fn clear_error(&mut self)
        ensures
            final(self).error_message is None,
            final(self).paused == old(self).paused,
            final(self).connected == old(self).connected,
            final(self).current_tab == old(self).current_tab,
            final(self).servers == old(self).servers,
            final(self).services == old(self).services,
            final(self).alerts == old(self).alerts,
            final(self).history_ids == old(self).history_ids,
            final(self).histories == old(self).histories,
            final(self).selected_server == old(self).selected_server,
            final(self).selected_service == old(self).selected_service,
            final(self).selected_alert == old(self).selected_alert,
            final(self).last_update == old(self).last_update,
            final(self).time_window_seconds == old(self).time_window_seconds,
            final(self).data_limit == old(self).data_limit,
    {
        self.error_message = None;
    }

    /// Marks the connection lost when it was up and no update came for more than
    /// `timeout_seconds` whole seconds before `now`.
    pub fn check_connection_timeout(&mut self, timeout_seconds: u64, now: i64)
        ensures
            match old(self).last_update {
                Some(t) => if whole_seconds(now - t) > (timeout_seconds as i64) && old(self).connected {
                    !final(self).connected && (final(self).error_message matches Some(m) && m@
                        == spec_timeout_message(timeout_seconds))
                } else {
                    final(self).connected == old(self).connected && final(self).error_message
                        == old(self).error_message
                },
                None => final(self).connected == old(self).connected && final(self).error_message == old(self).error_message,
            },
            final(self).last_update == old(self).last_update,
            same_layout(*old(self), *final(self)),
            final(self).alerts == old(self).alerts,
            final(self).history_ids == old(self).history_ids,
            final(self).histories == old(self).histories,
    {
        if let Some(last_update) = self.last_update {
            let elapsed = elapsed_whole_seconds(last_update, now);
            if elapsed > (timeout_seconds as i64) as i128 && self.connected {
                self.connected = false;
                self.error_message = Some(timeout_message(timeout_seconds));
            }
        }
    }

    /// Handles a live stream event, as the viewer's loop does, unless paused: a metric is
    /// added to its server's history and marks the connection up (clearing the error when
    /// it was down); the pseudo-service `Connection` reports the connection going up or
    /// down; any other service check clears the error when disconnected, and a check that
    /// found the service down is added to the alert timeline.
    pub fn handle_ws_event(&mut self, event: WsEvent<M>, now: i64)
        requires
            old(self).wf(),
            now >= i64::MIN + old(self).time_window_seconds * 2000,
        ensures
            final(self).wf(),
            old(self).paused ==> *final(self) == *old(self),
            same_layout(*old(self), *final(self)),
            !old(self).paused ==> match event {
                WsEvent::Metric { server_id, timestamp, metrics, .. } => {
                    &&& final(self).connected
                    &&& final(self).history_of(server_id@) == Some(
                        history_after_add(
                            match old(self).history_of(server_id@) {
                                Some(h) => h,
                                None => Seq::empty(),
                            },
                            MetricPoint { timestamp, metrics },
                            old(self).spec_cutoff(now),
                        ),
                    )
                    &&& forall|other: Seq<char>|
                        other != server_id@ ==> #[trigger] final(self).history_of(other) == old(self).history_of(other)
                    &&& final(self).last_update == Some(now)
                    &&& !old(self).connected ==> final(self).error_message is None
                    &&& old(self).connected ==> final(self).error_message == old(self).error_message
                    &&& final(self).alerts == old(self).alerts
                },
                WsEvent::ServiceCheck {
                    service_name,
                    status,
                    timestamp,
                    error_message,
                    ..
                } => {
                &&& final(self).history_ids == old(self).history_ids
                &&& final(self).histories == old(self).histories
                &&& final(self).last_update == old(self).last_update
                &&& if service_name@ == "Connection"@ {
                    &&& status == ServiceStatus::Up ==> final(self).connected && final(self).error_message is None
                    &&& status == ServiceStatus::Down ==> !final(self).connected && final(self).error_message == error_message
                    &&& status == ServiceStatus::Degraded ==> final(self).connected == old(self).connected && final(self).error_message == old(self).error_message
                    &&& final(self).alerts == old(self).alerts
                } else {
                    &&& final(self).connected == old(self).connected
                    &&& !old(self).connected ==> final(self).error_message is None
                    &&& old(self).connected ==> final(self).error_message == old(self).error_message
                    &&& status != ServiceStatus::Down ==> final(self).alerts == old(self).alerts
                    &&& status == ServiceStatus::Down ==> final(self).alerts@.len() > 0 && {
                        let a = final(self).alerts@.last();
                        &&& final(self).alerts@ == alerts_after_add(old(self).alerts@, a)
                        &&& a.timestamp == timestamp
                        &&& a.server_id@ == service_name@
                        &&& a.alert_type@ == "Service Down"@
                        &&& a.message@ == (match error_message {
                            Some(m) => m@,
                            None => "Service check failed"@,
                        })
                        &&& a.severity == AlertSeverity::Critical
                    }
                }
                },
            },
    {
        if self.paused {
            return ;
        }
        match event {
            WsEvent::Metric { server_id, timestamp, metrics, .. } => {
                let ghost key = server_id@;
                self.add_metric(server_id, metrics, timestamp, now);
                let ghost added = *self;
                if !self.connected {
                    self.error_message = None;
                }
                self.connected = true;
                assert forall|other: Seq<char>| other != key implies #[trigger] self.history_of(other)
                    == old(self).history_of(other) by {
                    assert(self.history_of(other) == added.history_of(other));
                }
            },
            WsEvent::ServiceCheck { service_name, status, timestamp, error_message, .. } => {
                let connection = String::from_str("Connection");
                if service_name == connection {
                    match status {
                        ServiceStatus::Up => {
                            self.connected = true;
                            self.error_message = None;
                        },
                        ServiceStatus::Down => {
                            self.connected = false;
                            self.error_message = error_message;
                        },
                        ServiceStatus::Degraded => {},
                    }
                    return ;
                }
                if !self.connected {
                    self.error_message = None;
                }
                if status == ServiceStatus::Down {
                    let message = match error_message {
                        Some(m) => m,
                        None => String::from_str("Service check failed"),
                    };
                    self.add_alert(
                        AlertEntry {
                            timestamp,
                            server_id: service_name,
                            alert_type: String::from_str("Service Down"),
                            message,
                            severity: AlertSeverity::Critical,
                        },
                    );
                }
            },
        }
    }

    /// Reacts to a key press, as the viewer's loop does: quit, switch tabs, move the
    /// selection, pause or resume, ask for a refresh, clear the error, or ignore the key.
    pub fn handle_key(&mut self, key: ViewerKey) -> (outcome: KeyOutcome)
        ensures
            outcome == (match key {
                ViewerKey::Quit => KeyOutcome::Quit,
                ViewerKey::Refresh => KeyOutcome::Refresh,
                _ => KeyOutcome::Continue,
            }),
            final(self).current_tab == (match key {
                ViewerKey::NextTab => old(self).current_tab.spec_next(),
                ViewerKey::PreviousTab => old(self).current_tab.spec_previous(),
                _ => old(self).current_tab,
            }),
            final(self).paused == (if key == ViewerKey::TogglePause {
                !old(self).paused
            } else {
                old(self).paused
            }),
            key == ViewerKey::ClearError ==> final(self).error_message is None,
            key != ViewerKey::ClearError ==> final(self).error_message == old(self).error_message,
            key == ViewerKey::Down ==> final(self).selected_server == (if old(self).current_tab
                == Tab::Servers {
                spec_select_next(old(self).selected_server as nat, old(self).servers@.len())
            } else {
                old(self).selected_server as nat
            }),
            key == ViewerKey::Up ==> final(self).selected_server == (if old(self).current_tab
                == Tab::Servers {
                spec_select_previous(old(self).selected_server as nat, old(self).servers@.len())
            } else {
                old(self).selected_server as nat
            }),
            key == ViewerKey::Down ==> final(self).selected_service == (if old(self).current_tab
                == Tab::Services {
                spec_select_next(old(self).selected_service as nat, old(self).services@.len())
            } else {
                old(self).selected_service as nat
            }),
            key == ViewerKey::Up ==> final(self).selected_service == (if old(self).current_tab
                == Tab::Services {
                spec_select_previous(old(self).selected_service as nat, old(self).services@.len())
            } else {
                old(self).selected_service as nat
            }),
            key == ViewerKey::Down ==> final(self).selected_alert == (if old(self).current_tab
                == Tab::Alerts {
                spec_select_next(old(self).selected_alert as nat, old(self).alerts@.len())
            } else {
                old(self).selected_alert as nat
            }),
            key == ViewerKey::Up ==> final(self).selected_alert == (if old(self).current_tab
                == Tab::Alerts {
                spec_select_previous(old(self).selected_alert as nat, old(self).alerts@.len())
            } else {
                old(self).selected_alert as nat
            }),
            key != ViewerKey::Down && key != ViewerKey::Up ==> final(self).selected_server == old(self).selected_server && final(self).selected_service == old(self).selected_service
                && final(self).selected_alert == old(self).selected_alert,
            final(self).servers == old(self).servers,
            final(self).services == old(self).services,
            final(self).alerts == old(self).alerts,
            final(self).connected == old(self).connected,
            final(self).history_ids == old(self).history_ids,
            final(self).histories == old(self).histories,
            final(self).last_update == old(self).last_update,
            final(self).time_window_seconds == old(self).time_window_seconds,
            final(self).data_limit == old(self).data_limit,
            (key == ViewerKey::Other || key == ViewerKey::Quit || key == ViewerKey::Refresh)
                ==> *final(self) == *old(self),
    {
        match key {
            ViewerKey::Quit => KeyOutcome::Quit,
            ViewerKey::NextTab => {
                self.current_tab = self.current_tab.next();
                KeyOutcome::Continue
            },
            ViewerKey::PreviousTab => {
                self.current_tab = self.current_tab.previous();
                KeyOutcome::Continue
            },
            ViewerKey::Down => {
                self.select_next();
                KeyOutcome::Continue
            },
            ViewerKey::Up => {
                self.select_previous();
                KeyOutcome::Continue
            },
            ViewerKey::TogglePause => {
                self.toggle_pause();
                KeyOutcome::Continue
            },
            ViewerKey::Refresh => KeyOutcome::Refresh,
            ViewerKey::ClearError => {
                self.clear_error();
                KeyOutcome::Continue
            },
            ViewerKey::Other => KeyOutcome::Continue,
        }
    }
}

impl<M> Default for AppState<M> {
    /// A fresh state with a five-minute chart window.
    fn default() -> (s: Self)
        ensures
            s.wf(),
            s.current_tab == Tab::Servers,
            s.servers@.len() == 0,
            s.services@.len() == 0,
            s.alerts@.len() == 0,
            forall|id: Seq<char>| #[trigger] s.history_of(id) is None,
            s.selected_server == 0,
            s.selected_service == 0,
            s.selected_alert == 0,
            !s.paused,
            s.last_update is None,
            !s.connected,
            s.error_message is None,
            s.time_window_seconds == 300,
            s.data_limit == 100,
    {
        Self::new(300)
    }
}

} // verus!
