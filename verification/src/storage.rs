//! Storage bookkeeping: metric and service-check records, storage errors, the storage
//! actor's buffers and flush accounting, uptime counting and the reading of backend
//! statistics.
use std::collections::VecDeque;
use vstd::prelude::*;
use vstd::string::*;
use crate::status::ServiceStatus;
use crate::text::{parse_unsigned, parse_unsigned_bounded};
use crate::alert_engine::{
    distinct_keys, find_key, first_position, lemma_distinct_push, lemma_first_position,
    lemma_first_position_push, string_keys,
};

verus! {

// ---------------------------------------------------------------------------
// Metric types
// ---------------------------------------------------------------------------

/// Kind of a stored metric.
#[derive(Debug, Clone, Copy, PartialEq, Eq, Structural)]
pub enum MetricType {
    /// Resource usage snapshot (CPU, memory, temperature).
    Resource,
    /// System information.
    System,
    /// Anything else.
    Custom,
}

impl MetricType {
    pub open spec fn spec_name(self) -> Seq<char> {
        match self {
            MetricType::Resource => "resource"@,
            MetricType::System => "system"@,
            MetricType::Custom => "custom"@,
        }
    }

    /// The stored name of the metric type.
    pub fn as_str(&self) -> (s: &'static str)
        ensures
            s@ == self.spec_name(),
    {
        match self {
            MetricType::Resource => "resource",
            MetricType::System => "system",
            MetricType::Custom => "custom",
        }
    }

    /// The stored name of the metric type, as a new string.
    pub fn to_string(&self) -> (s: String)
        ensures
            s@ == self.spec_name(),
    {
        String::from_str(self.as_str())
    }

    pub open spec fn spec_parse(s: Seq<char>) -> MetricType {
        if s == "system"@ {
            MetricType::System
        } else if s == "custom"@ {
            MetricType::Custom
        } else {
            MetricType::Resource
        }
    }

    /// Reads a stored name back; unknown names read as `Resource`.
    pub fn parse(s: &str) -> (t: MetricType)
        ensures
            t == Self::spec_parse(s@),
    {
        let t = String::from_str(s);
        let system = String::from_str("system");
        let custom = String::from_str("custom");
        if t == system {
            MetricType::System
        } else if t == custom {
            MetricType::Custom
        } else {
            MetricType::Resource
        }
    }
}

// ---------------------------------------------------------------------------
// Errors
// ---------------------------------------------------------------------------

#[verifier::external_type_specification]
#[verifier::external_body]
pub struct ExIoError(std::io::Error);

/// Errors of storage operations.
#[derive(Debug)]
pub enum StorageError {
    ConnectionFailed(String),
    QueryFailed(String),
    MigrationFailed(String),
    InvalidConfig(String),
    SerializationError(String),
    BackendError(String),
    IoError(std::io::Error),
    UnhealthyBackend(String),
}

impl StorageError {
    /// The message of an error that carries a text: a fixed prefix and the text.
    pub open spec fn spec_message(&self) -> Option<Seq<char>> {
        match self {
            StorageError::ConnectionFailed(m) => Some("failed to connect to storage backend: "@ + m@),
            StorageError::QueryFailed(m) => Some("storage query failed: "@ + m@),
            StorageError::MigrationFailed(m) => Some("database migration failed: "@ + m@),
            StorageError::InvalidConfig(m) => Some("invalid storage configuration: "@ + m@),
            StorageError::SerializationError(m) => Some("metric serialization error: "@ + m@),
            StorageError::BackendError(m) => Some("storage backend error: "@ + m@),
            StorageError::IoError(_) => None,
            StorageError::UnhealthyBackend(m) => Some("storage backend unhealthy: "@ + m@),
        }
    }

    /// The human-readable description of the error. For an I/O error it is `I/O error: `
    /// followed by the I/O error's own description.
    pub fn message(&self) -> (s: String)
        ensures
            match self.spec_message() {
                Some(m) => s@ == m,
                None => s@.len() >= "I/O error: "@.len() && s@.take("I/O error: "@.len() as int)
                    == "I/O error: "@,
            },
    {
        let (prefix, text) = match self {
            StorageError::ConnectionFailed(m) => ("failed to connect to storage backend: ", m),
            StorageError::QueryFailed(m) => ("storage query failed: ", m),
            StorageError::MigrationFailed(m) => ("database migration failed: ", m),
            StorageError::InvalidConfig(m) => ("invalid storage configuration: ", m),
            StorageError::SerializationError(m) => ("metric serialization error: ", m),
            StorageError::BackendError(m) => ("storage backend error: ", m),
            StorageError::IoError(e) => {
                let mut s = String::from_str("I/O error: ");
                let ghost p = s@;
                let d = io_error_text(e);
                s.append(d.as_str());
                assert(s@.take(p.len() as int) =~= p);
                return s;
            },
            StorageError::UnhealthyBackend(m) => ("storage backend unhealthy: ", m),
        };
        let mut s = String::from_str(prefix);
        s.append(text.as_str());
        s
    }

    /// Whether the error wraps an I/O error (its source).
    pub fn has_io_source(&self) -> (b: bool)
        ensures
            b == (self is IoError),
    {
        match self {
            StorageError::IoError(_) => true,
            _ => false,
        }
    }
}

impl From<std::io::Error> for StorageError {
    /// An I/O failure as a storage error.
    fn from(err: std::io::Error) -> (e: Self) {
        StorageError::IoError(err)
    }
}

impl vstd::std_specs::convert::FromSpecImpl<std::io::Error> for StorageError {
    open spec fn obeys_from_spec() -> bool {
        true
    }

    open spec fn from_spec(err: std::io::Error) -> StorageError {
        StorageError::IoError(err)
    }
}

/// The description of an I/O error, as its `Display` implementation writes it
/// (`std::io::Error`'s `to_string`). Nothing is claimed about its content.
#[verifier::external_body]
fn io_error_text(e: &std::io::Error) -> String {
    e.to_string()
}

/// Health of a storage backend.
#[derive(Debug, Clone)]
pub struct HealthStatus {
    pub healthy: bool,
    pub message: String,
    /// Backend-specific (key, value) details.
    pub metadata: Vec<(String, String)>,
}

/// A time-range query for one server's metrics (timestamps in Unix milliseconds, both
/// ends inclusive).
#[derive(Debug, Clone)]
pub struct QueryRange {
    pub server_id: String,
    pub start: i64,
    pub end: i64,
    pub limit: Option<usize>,
}

// ---------------------------------------------------------------------------
// Service checks and uptime
// ---------------------------------------------------------------------------

/// One stored service check (timestamp in Unix milliseconds).
#[derive(Debug, Clone)]
pub struct ServiceCheckRow {
    pub service_name: String,
    pub timestamp: i64,
    pub url: String,
    pub status: ServiceStatus,
    pub response_time_ms: Option<u64>,
    pub http_status_code: Option<u16>,
    pub error_message: Option<String>,
}

/// The counts uptime statistics are computed from.
#[derive(Debug, Clone, Copy, PartialEq, Eq, Structural)]
pub struct UptimeCounts {
    /// Checks at or after the start of the period.
    pub total_checks: usize,
    /// Of those, the checks that found the service up.
    pub successful_checks: usize,
    /// Sum of the response times that were recorded, in milliseconds.
    pub response_time_sum: u128,
    /// Number of checks with a recorded response time.
    pub response_time_count: usize,
}

pub open spec fn in_period(row: ServiceCheckRow, since: i64) -> bool {
    row.timestamp >= since
}

/// The uptime counts of a sequence of checks from `since` on.
pub open spec fn spec_uptime_counts(rows: Seq<ServiceCheckRow>, since: i64) -> (nat, nat, nat, nat)
    decreases rows.len(),
{
    if rows.len() == 0 {
        (0, 0, 0, 0)
    } else {
        let (t, s, sum, n) = spec_uptime_counts(rows.drop_last(), since);
        let r = rows.last();
        if in_period(r, since) {
            (
                t + 1,
                if r.status == ServiceStatus::Up {
                    s + 1
                } else {
                    s
                },
                match r.response_time_ms {
                    Some(ms) => sum + ms as nat,
                    None => sum,
                },
                match r.response_time_ms {
                    Some(_) => n + 1,
                    None => n,
                },
            )
        } else {
            (t, s, sum, n)
        }
    }
}

/// The counts of a single check: a check before `since` counts nowhere; one at or after
/// it counts once, as successful when the service was up, and its response time, when
/// recorded, counts toward the average whatever the check found.
pub proof fn lemma_uptime_counts_one_check(r: ServiceCheckRow, since: i64)
    ensures
        spec_uptime_counts(seq![r], since) == (if r.timestamp < since {
            (0nat, 0nat, 0nat, 0nat)
        } else {
            (
                1nat,
                (if r.status == ServiceStatus::Up { 1nat } else { 0nat }),
                (match r.response_time_ms { Some(ms) => ms as nat, None => 0nat }),
                (if r.response_time_ms is Some { 1nat } else { 0nat }),
            )
        }),
{
    let one = seq![r];
    assert(one.drop_last() =~= Seq::<ServiceCheckRow>::empty());
    assert(spec_uptime_counts(one.drop_last(), since) == (0nat, 0nat, 0nat, 0nat));
    assert(one.last() == r);
}

/// Counts add up: the counts of two runs of checks, one after the other, are the sums of
/// their counts.
pub proof fn lemma_uptime_counts_add(a: Seq<ServiceCheckRow>, b: Seq<ServiceCheckRow>, since: i64)
    ensures
        spec_uptime_counts(a + b, since) == ({
            let x = spec_uptime_counts(a, since);
            let y = spec_uptime_counts(b, since);
            (x.0 + y.0, x.1 + y.1, x.2 + y.2, x.3 + y.3)
        }),
    decreases b.len(),
{
    if b.len() == 0 {
        assert(a + b =~= a);
    } else {
        lemma_uptime_counts_add(a, b.drop_last(), since);
        assert((a + b).drop_last() =~= a + b.drop_last());
        assert((a + b).last() == b.last());
    }
}

proof fn lemma_uptime_counts_bounded(rows: Seq<ServiceCheckRow>, since: i64)
    ensures
        spec_uptime_counts(rows, since).0 <= rows.len(),
        spec_uptime_counts(rows, since).1 <= spec_uptime_counts(rows, since).0,
        spec_uptime_counts(rows, since).3 <= rows.len(),
        spec_uptime_counts(rows, since).2 <= rows.len() * 0x1_0000_0000_0000_0000,
    decreases rows.len(),
{
    if rows.len() > 0 {
        lemma_uptime_counts_bounded(rows.drop_last(), since);
    }
}

/// Counts the checks from `since` on, the successful ones among them, and the recorded
/// response times.
pub fn uptime_counts(rows: &Vec<ServiceCheckRow>, since: i64) -> (c: UptimeCounts)
    ensures
        (c.total_checks as nat, c.successful_checks as nat, c.response_time_sum as nat, c.response_time_count as nat)
            == spec_uptime_counts(rows@, since),
{
    let mut total: usize = 0;
    let mut successful: usize = 0;
    let mut sum: u128 = 0;
    let mut count: usize = 0;
    let mut i: usize = 0;
    while i < rows.len()
        invariant
            0 <= i <= rows@.len(),
            (total as nat, successful as nat, sum as nat, count as nat) == spec_uptime_counts(
                rows@.take(i as int),
                since,
            ),
        decreases rows@.len() - i,
    {
        proof {
            assert(rows@.take(i + 1).drop_last() =~= rows@.take(i as int));
            lemma_uptime_counts_bounded(rows@.take(i as int), since);
            assert(i * 0x1_0000_0000_0000_0000 + 0x1_0000_0000_0000_0000 <= u128::MAX) by (nonlinear_arith)
                requires
                    i < usize::MAX,
            ;
        }
        let r = &rows[i];
        if r.timestamp >= since {
            total = total + 1;
            if r.status == ServiceStatus::Up {
                successful = successful + 1;
            }
            match r.response_time_ms {
                Some(ms) => {
                    sum = sum + ms as u128;
                    count = count + 1;
                },
                None => {},
            }
        }
        i = i + 1;
    }
    assert(rows@.take(rows@.len() as int) =~= rows@);
    UptimeCounts {
        total_checks: total,
        successful_checks: successful,
        response_time_sum: sum,
        response_time_count: count,
    }
}

// ---------------------------------------------------------------------------
// Reading backend statistics
// ---------------------------------------------------------------------------

/// Unicode `White_Space` characters, as `char::is_whitespace` defines them.
pub open spec fn is_whitespace_char(c: char) -> bool {
    (c as u32 >= 0x9 && c as u32 <= 0xD) || c as u32 == 0x20 || c as u32 == 0x85 || c as u32
        == 0xA0 || c as u32 == 0x1680 || (c as u32 >= 0x2000 && c as u32 <= 0x200A) || c as u32
        == 0x2028 || c as u32 == 0x2029 || c as u32 == 0x202F || c as u32 == 0x205F || c as u32
        == 0x3000
}

fn is_whitespace(c: char) -> (b: bool)
    ensures
        b == is_whitespace_char(c),
{
    let v = c as u32;
    (v >= 0x9 && v <= 0xD) || v == 0x20 || v == 0x85 || v == 0xA0 || v == 0x1680 || (v >= 0x2000
        && v <= 0x200A) || v == 0x2028 || v == 0x2029 || v == 0x202F || v == 0x205F || v == 0x3000
}

/// The whitespace-separated words of a text, in order (as `str::split_whitespace` yields them).
pub open spec fn words(s: Seq<char>) -> Seq<Seq<char>>
    decreases s.len(),
{
    if s.len() == 0 {
        Seq::empty()
    } else {
        let before = words(s.drop_last());
        let c = s.last();
        if is_whitespace_char(c) {
            before
        } else if s.len() >= 2 && !is_whitespace_char(s[s.len() - 2]) {
            before.update(before.len() - 1, before.last().push(c))
        } else {
            before.push(seq![c])
        }
    }
}

proof fn lemma_words_nonempty_after_word_char(s: Seq<char>)
    requires
        s.len() > 0,
        !is_whitespace_char(s.last()),
    ensures
        words(s).len() > 0,
    decreases s.len(),
{
    let before = words(s.drop_last());
    if s.len() >= 2 && !is_whitespace_char(s[s.len() - 2]) {
        assert(s.drop_last().last() == s[s.len() - 2]);
        lemma_words_nonempty_after_word_char(s.drop_last());
    }
}

/// The words of a text.
pub fn split_words(s: &str) -> (w: Vec<String>)
    ensures
        w@.map_values(|x: String| x@) == words(s@),
{
    let len = s.unicode_len();
    let mut out: Vec<String> = Vec::new();
    let mut current = String::new();
    let mut in_word = false;
    let mut i: usize = 0;
    while i < len
        invariant
            0 <= i <= len,
            len == s@.len(),
            in_word ==> i > 0 && !is_whitespace_char(s@[i - 1]),
            !in_word ==> i == 0 || is_whitespace_char(s@[i - 1]),
            in_word ==> out@.map_values(|x: String| x@).push(current@) == words(s@.take(i as int)),
            !in_word ==> out@.map_values(|x: String| x@) == words(s@.take(i as int)),
        decreases len - i,
    {
        let c = s.get_char(i);
        let ghost prefix = s@.take(i + 1);
        proof {
            assert(prefix.drop_last() =~= s@.take(i as int));
            assert(prefix.last() == c);
        }
        if is_whitespace(c) {
            if in_word {
                let done = current;
                current = String::new();
                let ghost before = out@.map_values(|x: String| x@);
                out.push(done);
                assert(out@.map_values(|x: String| x@) =~= before.push(done@));
                in_word = false;
            }
        } else {
            if in_word {
                let ghost before = out@.map_values(|x: String| x@);
                let ghost cur = current@;
                assert(prefix[prefix.len() - 2] == s@[i - 1]);
                current.push(c);
                assert(before.push(cur).update(before.push(cur).len() - 1, cur.push(c)) =~= before.push(current@));
            } else {
                current = String::new();
                current.push(c);
                proof {
                    if i > 0 {
                        assert(prefix[prefix.len() - 2] == s@[i - 1]);
                    }
                }
                assert(current@ =~= seq![c]);
                in_word = true;
            }
        }
        i = i + 1;
    }
    assert(s@.take(len as int) =~= s@);
    if in_word {
        let ghost before = out@.map_values(|x: String| x@);
        out.push(current);
        assert(out@.map_values(|x: String| x@) =~= before.push(current@));
    }
    out
}

/// The number a statistics text reports as its second word, read as an unsigned number
/// that fits a `usize`.
pub open spec fn spec_reported_total(stats: Seq<char>) -> Option<nat> {
    let w = words(stats);
    if w.len() >= 2 {
        match parse_unsigned(w[1]) {
            Some(v) => if v <= usize::MAX {
                Some(v)
            } else {
                None
            },
            None => None,
        }
    } else {
        None
    }
}

/// Reads the total a backend's statistics text reports (the second word, as in
/// `SQLite: 1234 rows, ...`).
pub fn reported_total(stats: &str) -> (r: Option<usize>)
    ensures
        match r {
            Some(v) => spec_reported_total(stats@) == Some(v as nat),
            None => spec_reported_total(stats@) is None,
        },
{
    let w = split_words(stats);
    proof {
        assert(w@.map_values(|x: String| x@).len() == w@.len());
    }
    if w.len() < 2 {
        return None;
    }
    assert(w@.map_values(|x: String| x@)[1] == w@[1]@);
    match parse_unsigned_bounded(w[1].as_str(), usize::MAX as u64) {
        Some(v) => Some(v as usize),
        None => None,
    }
}

// ---------------------------------------------------------------------------
// In-memory queries
// ---------------------------------------------------------------------------

/// The positions, in order, of the timestamps that lie in `[start, end]`.
pub open spec fn positions_in_range(ts: Seq<i64>, start: i64, end: i64) -> Seq<int>
    decreases ts.len(),
{
    if ts.len() == 0 {
        Seq::empty()
    } else {
        let rest = positions_in_range(ts.drop_last(), start, end);
        let i = ts.len() - 1;
        if start <= ts[i] && ts[i] <= end {
            rest.push(i)
        } else {
            rest
        }
    }
}

proof fn lemma_positions_in_range_bounded(ts: Seq<i64>, start: i64, end: i64)
    ensures
        positions_in_range(ts, start, end).len() <= ts.len(),
        forall|k: int|
            0 <= k < positions_in_range(ts, start, end).len() ==> 0 <= #[trigger] positions_in_range(
                ts,
                start,
                end,
            )[k] < ts.len(),
    decreases ts.len(),
{
    if ts.len() > 0 {
        lemma_positions_in_range_bounded(ts.drop_last(), start, end);
    }
}

/// A time-range query on rows held in memory, given the rows' timestamps in storage order:
/// the positions of the rows in `[start, end]`, oldest first, at most `limit` of them (all
/// of them without a limit).
pub fn range_positions(timestamps: &Vec<i64>, start: i64, end: i64, limit: Option<usize>) -> (r: Vec<
    usize,
>)
    ensures
        ({
            let all = positions_in_range(timestamps@, start, end);
            let n = match limit {
                Some(l) => if l < all.len() {
                    l as int
                } else {
                    all.len() as int
                },
                None => all.len() as int,
            };
            &&& r@.len() == n
            &&& forall|k: int| 0 <= k < n ==> r@[k] as int == all[k]
        }),
{
    let mut r: Vec<usize> = Vec::new();
    let mut i: usize = 0;
    while i < timestamps.len()
        invariant
            0 <= i <= timestamps@.len(),
            ({
                let all = positions_in_range(timestamps@.take(i as int), start, end);
                let n = match limit {
                    Some(l) => if l < all.len() {
                        l as int
                    } else {
                        all.len() as int
                    },
                    None => all.len() as int,
                };
                &&& r@.len() == n
                &&& forall|k: int| 0 <= k < n ==> r@[k] as int == all[k]
            }),
        decreases timestamps@.len() - i,
    {
        proof {
            assert(timestamps@.take(i + 1).drop_last() =~= timestamps@.take(i as int));
            lemma_positions_in_range_bounded(timestamps@.take(i as int), start, end);
        }
        let t = timestamps[i];
        if start <= t && t <= end {
            let room = match limit {
                Some(l) => r.len() < l,
                None => true,
            };
            if room {
                r.push(i);
            }
        }
        i = i + 1;
    }
    assert(timestamps@.take(timestamps@.len() as int) =~= timestamps@);
    r
}

/// A latest-first query on rows held in memory: the positions of the last `limit` rows of
/// `len` rows, newest first.
pub fn latest_positions(len: usize, limit: usize) -> (r: Vec<usize>)
    ensures
        r@.len() == if limit < len {
            limit as int
        } else {
            len as int
        },
        forall|k: int| 0 <= k < r@.len() ==> r@[k] == len - 1 - k,
{
    let mut r: Vec<usize> = Vec::new();
    let mut k: usize = 0;
    while k < len && k < limit
        invariant
            k <= len,
            k <= limit,
            r@.len() == k,
            forall|j: int| 0 <= j < k ==> r@[j] == len - 1 - j,
        decreases len - k,
    {
        r.push(len - 1 - k);
        k = k + 1;
    }
    r
}

// ---------------------------------------------------------------------------
// The storage actor's buffers
// ---------------------------------------------------------------------------

/// Capacity of the in-memory buffer of recent events.
pub const MAX_BUFFER_SIZE: usize = 1000;

/// Number of buffered rows that triggers a flush to the backend.
pub const BATCH_SIZE_TRIGGER: usize = 100;

/// `buffer` with `e` appended, dropping the oldest element when the capacity is exceeded.
pub open spec fn bounded_push<E>(buffer: Seq<E>, e: E) -> Seq<E> {
    if buffer.len() + 1 > MAX_BUFFER_SIZE {
        buffer.push(e).drop_first()
    } else {
        buffer.push(e)
    }
}

/// Appends `e` to a buffer of recent items, dropping the oldest past `MAX_BUFFER_SIZE`.
pub fn push_recent<E>(buffer: &mut VecDeque<E>, e: E)
    ensures
        final(buffer)@ == bounded_push(old(buffer)@, e),
{
    buffer.push_back(e);
    if buffer.len() > MAX_BUFFER_SIZE {
        buffer.pop_front();
    }
}

/// The last `MAX_BUFFER_SIZE` elements of a history (all of it when shorter).
pub open spec fn most_recent<E>(history: Seq<E>) -> Seq<E> {
    if history.len() <= MAX_BUFFER_SIZE {
        history
    } else {
        history.subrange(history.len() - MAX_BUFFER_SIZE, history.len() as int)
    }
}

/// The in-memory buffer holds exactly the most recent events: appending to the most
/// recent events of a history gives the most recent events of the longer history.
pub proof fn lemma_buffer_keeps_most_recent<E>(history: Seq<E>, e: E)
    ensures
        bounded_push(most_recent(history), e) == most_recent(history.push(e)),
{
    if history.len() < MAX_BUFFER_SIZE {
        assert(bounded_push(most_recent(history), e) =~= most_recent(history.push(e)));
    } else if history.len() == MAX_BUFFER_SIZE {
        assert(bounded_push(most_recent(history), e) =~= most_recent(history.push(e)));
    } else {
        assert(bounded_push(most_recent(history), e) =~= most_recent(history.push(e)));
    }
}

/// Milliseconds in a day.
pub const MILLIS_PER_DAY: i64 = 86_400_000;

/// The retention cutoff at `now` (Unix milliseconds): rows older than `retention_days`
/// days before `now` are deleted by a cleanup.
pub fn retention_cutoff(now: i64, retention_days: u32) -> (cutoff: i64)
    requires
        now >= i64::MIN + retention_days * MILLIS_PER_DAY,
    ensures
        cutoff == now - retention_days * MILLIS_PER_DAY,
{
    now - retention_days as i64 * MILLIS_PER_DAY
}

/// The kind of a command sent to the storage actor.
#[derive(Debug, Clone, Copy, PartialEq, Eq, Structural)]
pub enum StorageCommandKind {
    /// Flush the waiting rows now.
    Flush,
    /// Report the actor's statistics.
    GetStats,
    /// A query or cleanup of stored rows.
    Query,
    /// Report the storage's health.
    HealthCheck,
    /// Stop the actor.
    Shutdown,
}

/// What the storage actor does for a command.
pub enum StorageStep<R> {
    /// Send these rows to the backend (the flush counts once the backend accepts them),
    /// then reply.
    SendBatch(Vec<R>),
    /// Reply that the flush is done.
    Flushed,
    /// Reply with the statistics.
    ReportStats,
    /// Let the backend answer.
    AskBackend,
    /// Refuse with this message: no backend holds the rows.
    Refuse(String),
    /// Reply with this health report of the in-memory store.
    ReportHealth(String),
    /// Leave the loop, send these rows (if any) to the backend, then close it.
    Stop(Option<Vec<R>>),
}

/// The storage actor's bookkeeping: the buffer of recent events, the batch of rows waiting
/// for the backend, whether a backend is configured, the number of flushes, and the record
/// of retention cleanups (when the last ran, in Unix milliseconds, and how many metrics and
/// service checks they deleted in all).
pub struct StorageBook<E, R> {
    pub memory_buffer: VecDeque<E>,
    pub batch_buffer: Vec<R>,
    pub has_backend: bool,
    pub flush_count: u64,
    pub last_cleanup_time: Option<i64>,
    pub total_metrics_deleted: u64,
    pub total_service_checks_deleted: u64,
}

/// Statistics of the storage actor.
#[derive(Debug, Clone, Copy, PartialEq, Eq, Structural)]
pub struct StorageStats {
    pub total_metrics: usize,
    pub buffer_size: usize,
    pub flush_count: u64,
    /// Last retention cleanup (Unix milliseconds).
    pub last_cleanup_time: Option<i64>,
    pub total_metrics_deleted: u64,
    pub total_service_checks_deleted: u64,
}

impl<E, R> StorageBook<E, R> {
    pub open spec fn wf(&self) -> bool {
        &&& self.memory_buffer@.len() <= MAX_BUFFER_SIZE
        &&& self.batch_buffer@.len() < BATCH_SIZE_TRIGGER
        &&& !self.has_backend ==> self.batch_buffer@.len() == 0
    }

    /// The record of retention cleanups.
    pub open spec fn cleanup_record(&self) -> (Option<i64>, u64, u64) {
        (self.last_cleanup_time, self.total_metrics_deleted, self.total_service_checks_deleted)
    }

    /// Empty buffers, no flushes yet.
    pub fn new(has_backend: bool) -> (b: Self)
        ensures
            b.wf(),
            b.memory_buffer@.len() == 0,
            b.batch_buffer@.len() == 0,
            b.has_backend == has_backend,
            b.flush_count == 0,
            b.cleanup_record() == (None::<i64>, 0u64, 0u64),
    {
        StorageBook {
            memory_buffer: VecDeque::new(),
            batch_buffer: Vec::new(),
            has_backend,
            flush_count: 0,
            last_cleanup_time: None,
            total_metrics_deleted: 0,
            total_service_checks_deleted: 0,
        }
    }

    /// Stores an event: it goes into the buffer of recent events (the oldest dropped past
    /// the capacity), and, with a backend, its row joins the batch. Returns the batch to
    /// flush when the row makes it reach the size trigger (the batch is then empty).
    pub fn store_metric(&mut self, event: E, row: R) -> (flush: Option<Vec<R>>)
        requires
            old(self).wf(),
        ensures
            final(self).cleanup_record() == old(self).cleanup_record(),
            final(self).wf(),
            final(self).memory_buffer@ == bounded_push(old(self).memory_buffer@, event),
            final(self).has_backend == old(self).has_backend,
            final(self).flush_count == old(self).flush_count,
            !old(self).has_backend ==> flush is None && final(self).batch_buffer@.len() == 0,
            old(self).has_backend ==> if old(self).batch_buffer@.len() + 1 >= BATCH_SIZE_TRIGGER {
                flush matches Some(b) && b@ == old(self).batch_buffer@.push(row)
                    && final(self).batch_buffer@.len() == 0
            } else {
                flush is None && final(self).batch_buffer@ == old(self).batch_buffer@.push(row)
            },
    {
        push_recent(&mut self.memory_buffer, event);
        if self.has_backend {
            self.batch_buffer.push(row);
            if self.batch_buffer.len() >= BATCH_SIZE_TRIGGER {
                let mut batch = Vec::new();
                std::mem::swap(&mut batch, &mut self.batch_buffer);
                return Some(batch);
            }
        }
        None
    }

    /// Takes the batch for a flush to the backend: `None` without a backend or with an
    /// empty batch, otherwise the whole batch, leaving it empty.
    pub fn take_batch(&mut self) -> (batch: Option<Vec<R>>)
        requires
            old(self).wf(),
        ensures
            final(self).cleanup_record() == old(self).cleanup_record(),
            final(self).wf(),
            final(self).memory_buffer@ == old(self).memory_buffer@,
            final(self).has_backend == old(self).has_backend,
            final(self).flush_count == old(self).flush_count,
            (!old(self).has_backend || old(self).batch_buffer@.len() == 0) ==> batch is None
                && final(self).batch_buffer@ == old(self).batch_buffer@,
            (old(self).has_backend && old(self).batch_buffer@.len() > 0) ==> (batch matches Some(b)
                && b@ == old(self).batch_buffer@ && final(self).batch_buffer@.len() == 0),
    {
        if !self.has_backend || self.batch_buffer.len() == 0 {
            return None;
        }
        let mut batch = Vec::new();
        std::mem::swap(&mut batch, &mut self.batch_buffer);
        Some(batch)
    }

    /// Records a flush the backend accepted.
    pub fn flush_succeeded(&mut self)
        requires
            old(self).flush_count < u64::MAX,
        ensures
            final(self).cleanup_record() == old(self).cleanup_record(),
            final(self).flush_count == old(self).flush_count + 1,
            final(self).memory_buffer@ == old(self).memory_buffer@,
            final(self).batch_buffer@ == old(self).batch_buffer@,
            final(self).has_backend == old(self).has_backend,
    {
        self.flush_count = self.flush_count + 1;
    }

    /// Handles a manual flush request: with a backend, the batch to send (if any; the flush
    /// is counted once the backend accepts it); without one, the flush is counted right away.
    pub fn manual_flush(&mut self) -> (batch: Option<Vec<R>>)
        requires
            old(self).wf(),
            old(self).flush_count < u64::MAX,
        ensures
            final(self).cleanup_record() == old(self).cleanup_record(),
            final(self).wf(),
            final(self).memory_buffer@ == old(self).memory_buffer@,
            final(self).has_backend == old(self).has_backend,
            !old(self).has_backend ==> batch is None && final(self).flush_count == old(self).flush_count + 1,
            (!old(self).has_backend || old(self).batch_buffer@.len() == 0) ==> final(self).batch_buffer@
                == old(self).batch_buffer@,
            old(self).has_backend ==> final(self).flush_count == old(self).flush_count && (
            old(self).batch_buffer@.len() == 0 ==> batch is None) && (old(self).batch_buffer@.len()
                > 0 ==> (batch matches Some(b) && b@ == old(self).batch_buffer@
                && final(self).batch_buffer@.len() == 0)),
    {
        if self.has_backend {
            self.take_batch()
        } else {
            self.flush_count = self.flush_count + 1;
            None
        }
    }

    /// How a query is answered without going to a backend: `None` when a backend is
    /// configured (it answers), otherwise the refusal sent back in its place, since the
    /// in-memory buffer serves no queries.
    pub fn query_refusal(&self) -> (r: Option<String>)
        ensures
            self.has_backend ==> r is None,
            !self.has_backend ==> (r matches Some(m) && m@
                == "Query operations not available in in-memory mode"@),
    {
        if self.has_backend {
            None
        } else {
            Some(String::from_str("Query operations not available in in-memory mode"))
        }
    }

    /// The health report when no backend is configured: `None` with a backend (it reports
    /// its own health), otherwise the in-memory store's report, which is always healthy.
    pub fn in_memory_health(&self) -> (r: Option<String>)
        ensures
            self.has_backend ==> r is None,
            !self.has_backend ==> (r matches Some(m) && m@ == "In-memory storage: operational"@),
    {
        if self.has_backend {
            None
        } else {
            Some(String::from_str("In-memory storage: operational"))
        }
    }

    /// The actor's statistics. `reported` is what the backend's statistics text reports as
    /// its total (`None` without a backend, or when the backend gave no readable total); the
    /// number of buffered events stands in for it otherwise.
    pub fn stats(&self, reported: Option<usize>) -> (s: StorageStats)
        ensures
            s.total_metrics == (match reported {
                Some(t) if self.has_backend => t,
                _ => self.memory_buffer@.len() as usize,
            }),
            s.buffer_size == self.memory_buffer@.len(),
            s.flush_count == self.flush_count,
            s.last_cleanup_time == self.last_cleanup_time,
            s.total_metrics_deleted == self.total_metrics_deleted,
            s.total_service_checks_deleted == self.total_service_checks_deleted,
    {
        let buffered = self.memory_buffer.len();
        let total = match reported {
            Some(t) => if self.has_backend {
                t
            } else {
                buffered
            },
            None => buffered,
        };
        StorageStats {
            total_metrics: total,
            buffer_size: buffered,
            flush_count: self.flush_count,
            last_cleanup_time: self.last_cleanup_time,
            total_metrics_deleted: self.total_metrics_deleted,
            total_service_checks_deleted: self.total_service_checks_deleted,
        }
    }

    /// Records the backend's answer to a flush: an accepted flush is counted, a refused one
    /// is not.
    pub fn flush_outcome(&mut self, accepted: bool)
        requires
            accepted ==> old(self).flush_count < u64::MAX,
        ensures
            final(self).flush_count == old(self).flush_count + (if accepted {
                1int
            } else {
                0int
            }),
            final(self).memory_buffer@ == old(self).memory_buffer@,
            final(self).batch_buffer@ == old(self).batch_buffer@,
            final(self).has_backend == old(self).has_backend,
            final(self).cleanup_record() == old(self).cleanup_record(),
    {
        if accepted {
            self.flush_succeeded();
        }
    }

    /// Decides what a command asks of the actor: a flush sends the waiting rows to the
    /// backend (without a backend it is counted at once); statistics are reported; a query
    /// or health check goes to the backend, and without one the query is refused and the
    /// in-memory store reports itself healthy; a shutdown stops the actor after a last flush
    /// of the waiting rows.
    pub fn on_command(&mut self, kind: StorageCommandKind) -> (step: StorageStep<R>)
        requires
            old(self).wf(),
            kind == StorageCommandKind::Flush ==> old(self).flush_count < u64::MAX,
        ensures
            final(self).wf(),
            final(self).memory_buffer@ == old(self).memory_buffer@,
            final(self).has_backend == old(self).has_backend,
            final(self).cleanup_record() == old(self).cleanup_record(),
            kind != StorageCommandKind::Flush ==> final(self).flush_count == old(self).flush_count,
            match kind {
                StorageCommandKind::Flush => if !old(self).has_backend {
                    step is Flushed && final(self).flush_count == old(self).flush_count + 1
                } else if old(self).batch_buffer@.len() == 0 {
                    step is Flushed && final(self).flush_count == old(self).flush_count
                        && final(self).batch_buffer@ == old(self).batch_buffer@
                } else {
                    (step matches StorageStep::SendBatch(b) && b@ == old(self).batch_buffer@)
                        && final(self).batch_buffer@.len() == 0
                        && final(self).flush_count == old(self).flush_count
                },
                StorageCommandKind::GetStats => step is ReportStats && final(self).batch_buffer@
                    == old(self).batch_buffer@,
                StorageCommandKind::Query => final(self).batch_buffer@ == old(self).batch_buffer@
                    && if old(self).has_backend {
                    step is AskBackend
                } else {
                    step matches StorageStep::Refuse(m) && m@
                        == "Query operations not available in in-memory mode"@
                },
                StorageCommandKind::HealthCheck => final(self).batch_buffer@
                    == old(self).batch_buffer@ && if old(self).has_backend {
                    step is AskBackend
                } else {
                    step matches StorageStep::ReportHealth(m) && m@
                        == "In-memory storage: operational"@
                },
                StorageCommandKind::Shutdown => if old(self).has_backend
                    && old(self).batch_buffer@.len() > 0 {
                    (step matches StorageStep::Stop(Some(b)) && b@ == old(self).batch_buffer@)
                        && final(self).batch_buffer@.len() == 0
                } else {
                    step matches StorageStep::Stop(None) && final(self).batch_buffer@
                        == old(self).batch_buffer@
                },
            },
    {
        match kind {
            StorageCommandKind::Flush => match self.manual_flush() {
                Some(b) => StorageStep::SendBatch(b),
                None => StorageStep::Flushed,
            },
            StorageCommandKind::GetStats => StorageStep::ReportStats,
            StorageCommandKind::Query => match self.query_refusal() {
                Some(m) => StorageStep::Refuse(m),
                None => StorageStep::AskBackend,
            },
            StorageCommandKind::HealthCheck => match self.in_memory_health() {
                Some(m) => StorageStep::ReportHealth(m),
                None => StorageStep::AskBackend,
            },
            StorageCommandKind::Shutdown => StorageStep::Stop(self.take_batch()),
        }
    }

    /// Records a retention cleanup run at `at` (Unix milliseconds): the numbers of metrics
    /// and service checks deleted, `None` where that part of the cleanup failed (it then
    /// deleted nothing).
    pub fn record_cleanup(&mut self, metrics_deleted: Option<u64>, checks_deleted: Option<u64>, at: i64)
        requires
            old(self).total_metrics_deleted + match metrics_deleted {
                Some(d) => d as int,
                None => 0int,
            } <= u64::MAX,
            old(self).total_service_checks_deleted + match checks_deleted {
                Some(d) => d as int,
                None => 0int,
            } <= u64::MAX,
        ensures
            final(self).last_cleanup_time == Some(at),
            final(self).total_metrics_deleted == old(self).total_metrics_deleted + match metrics_deleted {
                Some(d) => d as int,
                None => 0int,
            },
            final(self).total_service_checks_deleted == old(self).total_service_checks_deleted
                + match checks_deleted {
                Some(d) => d as int,
                None => 0int,
            },
            final(self).memory_buffer@ == old(self).memory_buffer@,
            final(self).batch_buffer@ == old(self).batch_buffer@,
            final(self).has_backend == old(self).has_backend,
            final(self).flush_count == old(self).flush_count,
    {
        if let Some(d) = metrics_deleted {
            self.total_metrics_deleted = self.total_metrics_deleted + d;
        }
        if let Some(d) = checks_deleted {
            self.total_service_checks_deleted = self.total_service_checks_deleted + d;
        }
        self.last_cleanup_time = Some(at);
    }
}


// ---------------------------------------------------------------------------
// Recent rows grouped by key
// ---------------------------------------------------------------------------

/// The entries of a buffer at or after `cutoff` (Unix milliseconds), in order.
pub open spec fn kept_since<E>(entries: Seq<(i64, E)>, cutoff: i64) -> Seq<(i64, E)>
    decreases entries.len(),
{
    if entries.len() == 0 {
        entries
    } else {
        let rest = kept_since(entries.drop_last(), cutoff);
        if entries.last().0 >= cutoff {
            rest.push(entries.last())
        } else {
            rest
        }
    }
}

proof fn lemma_kept_since_len<E>(entries: Seq<(i64, E)>, cutoff: i64)
    ensures
        kept_since(entries, cutoff).len() <= entries.len(),
    decreases entries.len(),
{
    if entries.len() > 0 {
        lemma_kept_since_len(entries.drop_last(), cutoff);
    }
}

/// Keeps the entries of `buffer` at or after `cutoff`, in order; returns how many were
/// removed.
pub fn retain_since<E>(buffer: &mut VecDeque<(i64, E)>, cutoff: i64) -> (removed: usize)
    ensures
        final(buffer)@ == kept_since(old(buffer)@, cutoff),
        removed == old(buffer)@.len() - final(buffer)@.len(),
{
    let ghost orig = buffer@;
    let total = buffer.len();
    let mut rest: VecDeque<(i64, E)> = VecDeque::new();
    std::mem::swap(&mut rest, buffer);
    let mut kept: VecDeque<(i64, E)> = VecDeque::new();
    let ghost n = orig.len();
    assert(orig.take(0) =~= Seq::<(i64, E)>::empty());
    assert(orig.skip(0) =~= orig);
    while rest.len() > 0
        invariant
            n == orig.len(),
            total == n,
            rest@.len() <= n,
            rest@ == orig.skip(n - rest@.len()),
            kept@ == kept_since(orig.take(n - rest@.len()), cutoff),
        decreases rest@.len(),
    {
        let ghost k = n - rest@.len();
        let ghost before = rest@;
        let entry = rest.pop_front().unwrap();
        proof {
            assert(before[0] == orig[k]);
            assert(entry == orig[k]);
            assert(orig.take(k + 1).drop_last() =~= orig.take(k));
            assert(orig.take(k + 1).last() == orig[k]);
            assert(rest@ =~= orig.skip(k + 1));
        }
        if entry.0 >= cutoff {
            kept.push_back(entry);
        }
    }
    proof {
        assert(orig.take(n as int) =~= orig);
        lemma_kept_since_len(orig, cutoff);
    }
    let removed = total - kept.len();
    *buffer = kept;
    removed
}

/// Recent entries grouped by key (a server or a service), each group a buffer of at most
/// `MAX_BUFFER_SIZE` entries stamped with their time (Unix milliseconds), oldest first.
/// `keys[i]` owns `buffers[i]`.
pub struct KeyedBuffers<E> {
    pub keys: Vec<String>,
    pub buffers: Vec<VecDeque<(i64, E)>>,
}

impl<E> KeyedBuffers<E> {
    pub open spec fn wf(&self) -> bool {
        &&& self.keys@.len() == self.buffers@.len()
        &&& distinct_keys(string_keys(self.keys@))
        &&& forall|i: int| 0 <= i < self.buffers@.len() ==> #[trigger] self.buffers@[i]@.len() <= MAX_BUFFER_SIZE
    }

    /// The buffer of `key`, if any entry was stored under it.
    pub open spec fn buffer_of(&self, key: Seq<char>) -> Option<Seq<(i64, E)>> {
        match first_position(string_keys(self.keys@), key) {
            Some(p) => Some(self.buffers@[p as int]@),
            None => None,
        }
    }

    /// No groups yet.
    pub fn new() -> (b: Self)
        ensures
            b.wf(),
            forall|key: Seq<char>| #[trigger] b.buffer_of(key) is None,
    {
        let b = KeyedBuffers { keys: Vec::new(), buffers: Vec::new() };
        assert forall|key: Seq<char>| #[trigger] b.buffer_of(key) is None by {
            assert(string_keys(b.keys@).len() == 0);
        }
        b
    }

    /// The number of groups.
    pub fn group_count(&self) -> (n: usize)
        ensures
            n == self.keys@.len(),
    {
        self.keys.len()
    }

    /// The buffer of `key`.
    pub fn buffer(&self, key: &str) -> (b: Option<&VecDeque<(i64, E)>>)
        requires
            self.wf(),
        ensures
            match self.buffer_of(key@) {
                Some(s) => b matches Some(v) && v@ == s,
                None => b is None,
            },
    {
        match find_key(&self.keys, key) {
            Some(i) => {
                proof {
                    lemma_first_position(string_keys(self.keys@), key@);
                }
                Some(&self.buffers[i])
            },
            None => None,
        }
    }

    /// Stores `entry`, taken at `time`, in the group of `key`: appended to its buffer, the
    /// oldest entry dropped past the capacity. Other groups do not change.
    pub fn push(&mut self, key: &str, time: i64, entry: E)
        requires
            old(self).wf(),
        ensures
            final(self).wf(),
            final(self).buffer_of(key@) == Some(
                bounded_push(
                    match old(self).buffer_of(key@) {
                        Some(b) => b,
                        None => Seq::empty(),
                    },
                    (time, entry),
                ),
            ),
            forall|other: Seq<char>|
                other != key@ ==> #[trigger] final(self).buffer_of(other) == old(self).buffer_of(other),
    {
        let ghost old_keys = string_keys(self.keys@);
        let ghost k = key@;
        proof {
            lemma_first_position(old_keys, k);
        }
        match find_key(&self.keys, key) {
            Some(i) => {
                push_recent(&mut self.buffers[i], (time, entry));
                proof {
                    assert(string_keys(self.keys@) == old_keys);
                    assert forall|other: Seq<char>| other != k implies #[trigger] self.buffer_of(other)
                        == old(self).buffer_of(other) by {
                        lemma_first_position(old_keys, other);
                        if let Some(q) = first_position(old_keys, other) {
                            assert(q != i);
                        }
                    }
                    assert forall|j: int| 0 <= j < self.buffers@.len() implies #[trigger] self.buffers@[j]@.len()
                        <= MAX_BUFFER_SIZE by {
                        if j != i {
                            assert(self.buffers@[j] == old(self).buffers@[j]);
                        }
                    }
                }
            },
            None => {
                let mut buffer: VecDeque<(i64, E)> = VecDeque::new();
                push_recent(&mut buffer, (time, entry));
                self.keys.push(String::from_str(key));
                self.buffers.push(buffer);
                proof {
                    assert(string_keys(self.keys@) =~= old_keys.push(k));
                    lemma_distinct_push(old_keys, k);
                    assert forall|other: Seq<char>| #[trigger] self.buffer_of(other) == (if other == k {
                        Some(bounded_push(Seq::<(i64, E)>::empty(), (time, entry)))
                    } else {
                        old(self).buffer_of(other)
                    }) by {
                        lemma_first_position_push(old_keys, k, other);
                        lemma_first_position(old_keys, other);
                    }
                    assert forall|j: int| 0 <= j < self.buffers@.len() implies #[trigger] self.buffers@[j]@.len()
                        <= MAX_BUFFER_SIZE by {
                        if j < old(self).buffers@.len() {
                            assert(self.buffers@[j] == old(self).buffers@[j]);
                        }
                    }
                }
            },
        }
    }

    /// Removes from every group the entries older than `cutoff` (Unix milliseconds);
    /// returns, group by group, how many were removed.
    pub fn remove_older(&mut self, cutoff: i64) -> (removed: Vec<usize>)
        requires
            old(self).wf(),
        ensures
            final(self).wf(),
            final(self).keys@ == old(self).keys@,
            removed@.len() == old(self).buffers@.len(),
            forall|i: int|
                0 <= i < removed@.len() ==> #[trigger] final(self).buffers@[i]@ == kept_since(
                    old(self).buffers@[i]@,
                    cutoff,
                ) && removed@[i] == old(self).buffers@[i]@.len() - final(self).buffers@[i]@.len(),
            forall|key: Seq<char>| #[trigger] final(self).buffer_of(key) == match old(self).buffer_of(key) {
                Some(b) => Some(kept_since(b, cutoff)),
                None => None,
            },
    {
        let mut removed: Vec<usize> = Vec::new();
        let n = self.buffers.len();
        let mut i: usize = 0;
        while i < n
            invariant
                0 <= i <= n,
                n == self.buffers@.len(),
                self.keys@ == old(self).keys@,
                self.buffers@.len() == old(self).buffers@.len(),
                removed@.len() == i,
                forall|j: int| i <= j < n ==> #[trigger] self.buffers@[j] == old(self).buffers@[j],
                forall|j: int|
                    0 <= j < i ==> #[trigger] self.buffers@[j]@ == kept_since(old(self).buffers@[j]@, cutoff)
                        && removed@[j] == old(self).buffers@[j]@.len() - self.buffers@[j]@.len(),
            decreases n - i,
        {
            let r = retain_since(&mut self.buffers[i], cutoff);
            removed.push(r);
            i = i + 1;
        }
        proof {
            assert forall|j: int| 0 <= j < self.buffers@.len() implies #[trigger] self.buffers@[j]@.len()
                <= MAX_BUFFER_SIZE by {
                lemma_kept_since_len(old(self).buffers@[j]@, cutoff);
            }
            assert forall|key: Seq<char>| #[trigger] self.buffer_of(key) == match old(self).buffer_of(key) {
                Some(b) => Some(kept_since(b, cutoff)),
                None => None,
            } by {
                lemma_first_position(string_keys(self.keys@), key);
                if let Some(p) = first_position(string_keys(self.keys@), key) {
                    assert(self.buffers@[p as int]@ == kept_since(old(self).buffers@[p as int]@, cutoff));
                }
            }
        }
        removed
    }
}

} // verus!
