use guardia::status::ServiceStatus;
use guardia::storage::{
    latest_positions, push_recent, range_positions, reported_total, retention_cutoff, split_words, uptime_counts, MetricType, KeyedBuffers, ServiceCheckRow, StorageBook, StorageCommandKind, StorageStep,
    StorageError, MAX_BUFFER_SIZE,
};

#[test]
fn test_metric_type_display() {
    assert_eq!(MetricType::Resource.to_string(), "resource");
    assert_eq!(MetricType::System.to_string(), "system");
    assert_eq!(MetricType::Custom.to_string(), "custom");
}

#[test]
fn metric_type_names_read_back() {
    assert_eq!(MetricType::parse("system"), MetricType::System);
    assert_eq!(MetricType::parse("custom"), MetricType::Custom);
    assert_eq!(MetricType::parse("resource"), MetricType::Resource);
    assert_eq!(MetricType::parse("unknown"), MetricType::Resource);
}

#[test]
fn service_status_names_read_back() {
    assert_eq!(ServiceStatus::parse("up"), ServiceStatus::Up);
    assert_eq!(ServiceStatus::parse("degraded"), ServiceStatus::Degraded);
    assert_eq!(ServiceStatus::parse("down"), ServiceStatus::Down);
    assert_eq!(ServiceStatus::parse("???"), ServiceStatus::Down);
    assert_eq!(ServiceStatus::Degraded.as_str(), "degraded");
}

#[test]
fn storage_error_messages() {
    assert_eq!(
        StorageError::QueryFailed("no rows found".to_string()).message(),
        "storage query failed: no rows found"
    );
    assert_eq!(
        StorageError::ConnectionFailed("refused".to_string()).message(),
        "failed to connect to storage backend: refused"
    );
    assert_eq!(
        StorageError::UnhealthyBackend("x".to_string()).message(),
        "storage backend unhealthy: x"
    );
    let io = StorageError::IoError(std::io::Error::new(std::io::ErrorKind::Other, "disk full"));
    assert_eq!(io.message(), "I/O error: disk full");
    assert!(io.has_io_source());
    assert!(!StorageError::BackendError("b".to_string()).has_io_source());
}

#[test]
fn reported_total_reads_second_word() {
    assert_eq!(
        reported_total("SQLite: 1234 rows, 0.10 MB on disk, time range: no data"),
        Some(1234)
    );
    assert_eq!(reported_total("In-Memory: 7 metrics across 1 servers"), Some(7));
    assert_eq!(reported_total("SQLite: +5 rows"), Some(5));
    assert_eq!(reported_total("SQLite:"), None);
    assert_eq!(reported_total("SQLite: many rows"), None);
    assert_eq!(reported_total("SQLite: 99999999999999999999999 rows"), None);
    assert_eq!(reported_total("  a\t\n 42 "), Some(42));
}

#[test]
fn split_words_like_split_whitespace() {
    let text = " one\u{00A0}two  three\u{3000}";
    let expected: Vec<String> = text.split_whitespace().map(|s| s.to_string()).collect();
    assert_eq!(split_words(text), expected);
    assert!(split_words("   ").is_empty());
}

fn check(ts: i64, status: ServiceStatus, ms: Option<u64>) -> ServiceCheckRow {
    ServiceCheckRow {
        service_name: "svc".to_string(),
        timestamp: ts,
        url: "https://example.com".to_string(),
        status,
        response_time_ms: ms,
        http_status_code: None,
        error_message: None,
    }
}

#[test]
fn uptime_counts_from_since_on() {
    let rows = vec![
        check(10, ServiceStatus::Up, Some(100)),
        check(20, ServiceStatus::Down, None),
        check(30, ServiceStatus::Up, Some(150)),
        check(40, ServiceStatus::Degraded, Some(50)),
        check(5, ServiceStatus::Up, Some(1000)),
    ];
    let c = uptime_counts(&rows, 10);
    assert_eq!(c.total_checks, 4);
    assert_eq!(c.successful_checks, 2);
    assert_eq!(c.response_time_sum, 300);
    assert_eq!(c.response_time_count, 3);
    let none = uptime_counts(&rows, 1000);
    assert_eq!(none.total_checks, 0);
}

#[test]
fn storage_book_keeps_most_recent_events() {
    let mut book: StorageBook<u32, u32> = StorageBook::new(false);
    for i in 0..(MAX_BUFFER_SIZE as u32 + 5) {
        assert!(book.store_metric(i, i).is_none());
    }
    assert_eq!(book.memory_buffer.len(), MAX_BUFFER_SIZE);
    assert_eq!(*book.memory_buffer.front().unwrap(), 5);
    assert_eq!(*book.memory_buffer.back().unwrap(), MAX_BUFFER_SIZE as u32 + 4);
    assert!(book.manual_flush().is_none());
    assert_eq!(book.flush_count, 1);
    let stats = book.stats(Some(99));
    assert_eq!(stats.total_metrics, MAX_BUFFER_SIZE);
    assert_eq!(stats.buffer_size, MAX_BUFFER_SIZE);
    assert_eq!(stats.flush_count, 1);
}

#[test]
fn storage_book_flushes_batches_of_one_hundred() {
    let mut book: StorageBook<u32, u32> = StorageBook::new(true);
    for i in 0..99 {
        assert!(book.store_metric(i, i).is_none());
    }
    let batch = book.store_metric(99, 99).expect("size trigger");
    assert_eq!(batch.len(), 100);
    assert_eq!(batch[0], 0);
    assert!(book.batch_buffer.is_empty());
    book.flush_succeeded();
    assert!(book.store_metric(100, 100).is_none());
    let manual = book.manual_flush().expect("pending row");
    assert_eq!(manual, vec![100]);
    assert!(book.take_batch().is_none());
    assert_eq!(book.flush_count, 1);
    assert_eq!(book.stats(Some(1234)).total_metrics, 1234);
    assert_eq!(book.stats(None).total_metrics, 101);
}

#[test]
fn in_memory_range_query_positions() {
    let ts = vec![10, 20, 30, 40, 50];
    assert_eq!(range_positions(&ts, 20, 40, None), vec![1, 2, 3]);
    assert_eq!(range_positions(&ts, 20, 40, Some(2)), vec![1, 2]);
    assert_eq!(range_positions(&ts, 0, 100, Some(0)), Vec::<usize>::new());
    assert_eq!(range_positions(&ts, 60, 70, None), Vec::<usize>::new());
    // both ends are inclusive
    assert_eq!(range_positions(&ts, 10, 10, None), vec![0]);
    let unordered = vec![50, 10, 30];
    assert_eq!(range_positions(&unordered, 20, 60, None), vec![0, 2]);
}

#[test]
fn in_memory_latest_query_positions() {
    assert_eq!(latest_positions(5, 2), vec![4, 3]);
    assert_eq!(latest_positions(2, 10), vec![1, 0]);
    assert_eq!(latest_positions(0, 3), Vec::<usize>::new());
}

#[test]
fn retention_cutoff_is_days_before_now() {
    assert_eq!(retention_cutoff(1_700_000_000_000, 30), 1_700_000_000_000 - 30 * 86_400_000);
    assert_eq!(retention_cutoff(0, 1), -86_400_000);
    assert_eq!(retention_cutoff(5, 0), 5);
}

#[test]
fn io_failures_convert_to_storage_errors() {
    let e: StorageError = std::io::Error::new(std::io::ErrorKind::NotFound, "metrics.db").into();
    assert!(e.has_io_source());
    assert_eq!(e.message(), "I/O error: metrics.db");
}

#[test]
fn queries_refused_without_backend() {
    let memory: StorageBook<u32, u32> = StorageBook::new(false);
    assert_eq!(memory.query_refusal(), Some("Query operations not available in in-memory mode".to_string()));
    assert_eq!(memory.in_memory_health(), Some("In-memory storage: operational".to_string()));
    let backed: StorageBook<u32, u32> = StorageBook::new(true);
    assert_eq!(backed.query_refusal(), None);
    assert_eq!(backed.in_memory_health(), None);
}

#[test]
fn ring_buffer_evicts_oldest() {
    let mut buffer = std::collections::VecDeque::new();
    for i in 0..MAX_BUFFER_SIZE + 5 {
        push_recent(&mut buffer, i);
    }
    assert_eq!(buffer.len(), MAX_BUFFER_SIZE);
    assert_eq!(buffer.front(), Some(&5));
    assert_eq!(buffer.back(), Some(&(MAX_BUFFER_SIZE + 4)));
}

#[test]
fn cleanup_record_is_kept_in_stats() {
    let mut book: StorageBook<u32, u32> = StorageBook::new(true);
    let s = book.stats(None);
    assert_eq!(s.last_cleanup_time, None);
    assert_eq!(s.total_metrics_deleted, 0);
    book.record_cleanup(Some(7), Some(2), 1_700_000_000_000);
    book.record_cleanup(Some(3), None, 1_700_000_100_000);
    let s = book.stats(Some(40));
    assert_eq!(s.last_cleanup_time, Some(1_700_000_100_000));
    assert_eq!(s.total_metrics_deleted, 10);
    assert_eq!(s.total_service_checks_deleted, 2);
    assert_eq!(s.total_metrics, 40);
}

#[test]
fn storage_commands_decided_by_the_book() {
    let mut memory: StorageBook<u32, u32> = StorageBook::new(false);
    assert!(matches!(memory.on_command(StorageCommandKind::Flush), StorageStep::Flushed));
    assert_eq!(memory.flush_count, 1);
    assert!(matches!(memory.on_command(StorageCommandKind::GetStats), StorageStep::ReportStats));
    match memory.on_command(StorageCommandKind::Query) {
        StorageStep::Refuse(m) => assert_eq!(m, "Query operations not available in in-memory mode"),
        _ => panic!("query must be refused"),
    }
    match memory.on_command(StorageCommandKind::HealthCheck) {
        StorageStep::ReportHealth(m) => assert_eq!(m, "In-memory storage: operational"),
        _ => panic!("in-memory health expected"),
    }
    assert!(matches!(memory.on_command(StorageCommandKind::Shutdown), StorageStep::Stop(None)));

    let mut backed: StorageBook<u32, u32> = StorageBook::new(true);
    assert!(matches!(backed.on_command(StorageCommandKind::Flush), StorageStep::Flushed));
    assert_eq!(backed.flush_count, 0);
    backed.store_metric(1, 10);
    backed.store_metric(2, 20);
    match backed.on_command(StorageCommandKind::Flush) {
        StorageStep::SendBatch(b) => assert_eq!(b, vec![10, 20]),
        _ => panic!("batch expected"),
    }
    backed.flush_outcome(false);
    assert_eq!(backed.flush_count, 0);
    backed.flush_outcome(true);
    assert_eq!(backed.flush_count, 1);
    assert!(matches!(backed.on_command(StorageCommandKind::Query), StorageStep::AskBackend));
    backed.store_metric(3, 30);
    match backed.on_command(StorageCommandKind::Shutdown) {
        StorageStep::Stop(Some(b)) => assert_eq!(b, vec![30]),
        _ => panic!("final batch expected"),
    }
}

#[test]
fn keyed_buffers_group_and_clean_up() {
    let mut groups: KeyedBuffers<&str> = KeyedBuffers::new();
    groups.push("a", 10, "a1");
    groups.push("b", 15, "b1");
    groups.push("a", 20, "a2");
    assert_eq!(groups.group_count(), 2);
    let a: Vec<(i64, &str)> = groups.buffer("a").unwrap().iter().cloned().collect();
    assert_eq!(a, vec![(10, "a1"), (20, "a2")]);
    assert!(groups.buffer("c").is_none());
    let removed = groups.remove_older(16);
    assert_eq!(removed, vec![1, 1]);
    let a: Vec<(i64, &str)> = groups.buffer("a").unwrap().iter().cloned().collect();
    assert_eq!(a, vec![(20, "a2")]);
    assert!(groups.buffer("b").unwrap().is_empty());
    for i in 0..(MAX_BUFFER_SIZE as i64 + 3) {
        groups.push("b", 100 + i, "x");
    }
    assert_eq!(groups.buffer("b").unwrap().len(), MAX_BUFFER_SIZE);
    assert_eq!(groups.buffer("b").unwrap().front().map(|e| e.0), Some(103));
}
