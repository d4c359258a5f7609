use std::time::{Duration, Instant};
use usage_stats::{UsageInfo, UsageStats, UsageUnit};

fn report(reads: (u64, u64), writes: (u64, u64), cache_reads: (u64, u64)) -> UsageInfo {
    UsageInfo {
        reads: UsageUnit { ops: reads.0, bytes: reads.1 },
        writes: UsageUnit { ops: writes.0, bytes: writes.1 },
        cache_reads: UsageUnit { ops: cache_reads.0, bytes: cache_reads.1 },
        memory: 77,
        started: Instant::now(),
        span: Duration::from_secs(9),
    }
}

fn counts(info: &UsageInfo) -> [u64; 6] {
    [
        info.reads.ops,
        info.reads.bytes,
        info.writes.ops,
        info.writes.bytes,
        info.cache_reads.ops,
        info.cache_reads.bytes,
    ]
}

#[test]
fn fresh_tracker_holds_nothing() {
    let mut stats = UsageStats::new();
    let info = stats.take();
    assert_eq!(counts(&info), [0, 0, 0, 0, 0, 0]);
    assert_eq!(info.memory, 0);
}

#[test]
fn tallies_then_take_scenario() {
    let mut stats = UsageStats::new();
    stats.tally_read(100, false);
    stats.tally_read(50, true);
    stats.tally_writes(3, 300);
    let info = stats.take();
    assert_eq!(info.reads, UsageUnit { ops: 2, bytes: 150 });
    assert_eq!(info.cache_reads, UsageUnit { ops: 1, bytes: 50 });
    assert_eq!(info.writes, UsageUnit { ops: 3, bytes: 300 });
    assert_eq!(info.memory, 0);
    let after = stats.take();
    assert_eq!(counts(&after), [0, 0, 0, 0, 0, 0]);
    assert_eq!(after.memory, 0);
}

#[test]
fn key_read_scenario() {
    let mut stats = UsageStats::new();
    let value = stats.tally_key_read(b"abc", Some(b"de".to_vec()), false);
    assert_eq!(value, Some(b"de".to_vec()));
    let info = stats.take();
    assert_eq!(info.reads, UsageUnit { ops: 1, bytes: 5 });
    assert_eq!(info.cache_reads, UsageUnit { ops: 0, bytes: 0 });
    assert_eq!(info.writes, UsageUnit { ops: 0, bytes: 0 });
}

#[test]
fn key_read_without_value_counts_the_key_alone() {
    let mut stats = UsageStats::new();
    let value = stats.tally_key_read(b"abcd", None, true);
    assert_eq!(value, None);
    let info = stats.take();
    assert_eq!(info.reads, UsageUnit { ops: 1, bytes: 4 });
    assert_eq!(info.cache_reads, UsageUnit { ops: 1, bytes: 4 });
}

#[test]
fn key_read_of_empty_key_and_empty_value() {
    let mut stats = UsageStats::new();
    let value = stats.tally_key_read(b"", Some(Vec::new()), false);
    assert_eq!(value, Some(Vec::new()));
    let info = stats.take();
    assert_eq!(info.reads, UsageUnit { ops: 1, bytes: 0 });
}

#[test]
fn key_read_hands_the_value_back_unchanged() {
    let mut stats = UsageStats::new();
    let bytes: Vec<u8> = (0..=255).collect();
    let value = stats.tally_key_read(b"k", Some(bytes.clone()), true);
    assert_eq!(value, Some(bytes));
    let info = stats.take();
    assert_eq!(info.reads, UsageUnit { ops: 1, bytes: 257 });
    assert_eq!(info.cache_reads, UsageUnit { ops: 1, bytes: 257 });
}

#[test]
fn child_key_read_counts_both_key_parts_and_the_value() {
    let mut stats = UsageStats::new();
    let key = (b"ns".to_vec(), b"leaf".to_vec());
    let value = stats.tally_child_key_read(&key, Some(b"xyz".to_vec()), false);
    assert_eq!(value, Some(b"xyz".to_vec()));
    let info = stats.take();
    assert_eq!(info.reads, UsageUnit { ops: 1, bytes: 9 });
    assert_eq!(info.cache_reads, UsageUnit { ops: 0, bytes: 0 });
}

#[test]
fn child_key_read_without_value_from_cache() {
    let mut stats = UsageStats::new();
    let key = (b"prefix".to_vec(), b"k".to_vec());
    let value = stats.tally_child_key_read(&key, None, true);
    assert_eq!(value, None);
    let info = stats.take();
    assert_eq!(info.reads, UsageUnit { ops: 1, bytes: 7 });
    assert_eq!(info.cache_reads, UsageUnit { ops: 1, bytes: 7 });
}

#[test]
fn tallies_add_up() {
    let mut stats = UsageStats::new();
    let reads: [(u64, bool); 5] = [(10, false), (20, true), (0, true), (7, false), (1000, true)];
    for (bytes, cache) in reads {
        stats.tally_read(bytes, cache);
    }
    stats.tally_writes(2, 64);
    stats.tally_writes(0, 0);
    stats.tally_writes(5, 1);
    let info = stats.take();
    assert_eq!(info.reads, UsageUnit { ops: 5, bytes: 1037 });
    assert_eq!(info.cache_reads, UsageUnit { ops: 3, bytes: 1020 });
    assert_eq!(info.writes, UsageUnit { ops: 7, bytes: 65 });
}

#[test]
fn writes_do_not_touch_the_read_counters() {
    let mut stats = UsageStats::new();
    stats.tally_writes(4, 4096);
    let info = stats.take();
    assert_eq!(counts(&info), [0, 0, 4, 4096, 0, 0]);
}

#[test]
fn take_reports_only_what_came_since_the_last_take() {
    let mut stats = UsageStats::new();
    stats.tally_read(11, true);
    stats.tally_writes(1, 8);
    let first = stats.take();
    assert_eq!(counts(&first), [1, 11, 1, 8, 1, 11]);
    stats.tally_read(5, false);
    let second = stats.take();
    assert_eq!(counts(&second), [1, 5, 0, 0, 0, 0]);
    let third = stats.take();
    assert_eq!(counts(&third), [0, 0, 0, 0, 0, 0]);
}

#[test]
fn merge_adds_every_count() {
    let mut stats = UsageStats::new();
    stats.tally_read(100, true);
    stats.tally_writes(1, 10);
    stats.merge_sm(report((3, 30), (4, 40), (2, 20)));
    let info = stats.take();
    assert_eq!(counts(&info), [4, 130, 5, 50, 3, 120]);
    assert_eq!(info.memory, 0);
}

#[test]
fn merge_twice_doubles_what_one_merge_adds() {
    let info = report((3, 30), (4, 40), (2, 20));
    let mut once = UsageStats::new();
    once.merge_sm(info);
    let one = once.take();
    assert_eq!(counts(&one), [3, 30, 4, 40, 2, 20]);
    let mut twice = UsageStats::new();
    twice.merge_sm(info);
    twice.merge_sm(info);
    let two = twice.take();
    assert_eq!(counts(&two), [6, 60, 8, 80, 4, 40]);
}

#[test]
fn merge_ignores_memory_and_times() {
    let started = Instant::now();
    let mut stats = UsageStats::started_at(started);
    let mut info = report((1, 2), (3, 4), (1, 1));
    info.memory = 123_456;
    info.span = Duration::from_secs(3600);
    stats.merge_sm(info);
    let out = stats.take_spanning(Duration::from_millis(5));
    assert_eq!(counts(&out), [1, 2, 3, 4, 1, 1]);
    assert_eq!(out.memory, 0);
    assert_eq!(out.started, started);
    assert_eq!(out.span, Duration::from_millis(5));
}

#[test]
fn cache_counts_stay_within_read_counts() {
    let mut stats = UsageStats::new();
    stats.tally_read(9, true);
    stats.tally_read(9, false);
    stats.tally_key_read(b"key", Some(vec![1, 2, 3]), true);
    stats.tally_writes(8, 8);
    stats.merge_sm(report((10, 100), (0, 0), (10, 100)));
    let info = stats.take();
    assert!(info.cache_reads.ops <= info.reads.ops);
    assert!(info.cache_reads.bytes <= info.reads.bytes);
    assert_eq!(counts(&info), [13, 124, 8, 8, 12, 115]);
    let empty = stats.take();
    assert!(empty.cache_reads.ops <= empty.reads.ops);
    assert!(empty.cache_reads.bytes <= empty.reads.bytes);
}

#[test]
fn a_counter_that_runs_over_starts_again_at_zero() {
    let mut stats = UsageStats::new();
    stats.tally_read(u64::MAX, false);
    stats.tally_read(2, false);
    stats.tally_writes(u64::MAX, u64::MAX);
    stats.tally_writes(1, 3);
    let info = stats.take();
    assert_eq!(info.reads, UsageUnit { ops: 2, bytes: 1 });
    assert_eq!(info.writes, UsageUnit { ops: 0, bytes: 2 });
}

#[test]
fn merge_runs_over_like_a_tally() {
    let mut stats = UsageStats::new();
    stats.merge_sm(report((u64::MAX, u64::MAX), (u64::MAX, 1), (u64::MAX, 0)));
    stats.merge_sm(report((1, 2), (3, 4), (5, 6)));
    let info = stats.take();
    assert_eq!(counts(&info), [0, 1, 2, 5, 4, 6]);
}

#[test]
fn take_keeps_the_start_and_reports_the_span_given() {
    let started = Instant::now();
    let mut stats = UsageStats::started_at(started);
    stats.tally_read(1, false);
    let first = stats.take_spanning(Duration::from_secs(2));
    assert_eq!(first.started, started);
    assert_eq!(first.span, Duration::from_secs(2));
    assert_eq!(counts(&first), [1, 1, 0, 0, 0, 0]);
    let second = stats.take_spanning(Duration::from_secs(7));
    assert_eq!(second.started, started);
    assert_eq!(second.span, Duration::from_secs(7));
    assert_eq!(counts(&second), [0, 0, 0, 0, 0, 0]);
}

#[test]
fn take_measures_the_span_from_the_start() {
    let before = Instant::now();
    let mut stats = UsageStats::new();
    let first = stats.take();
    let second = stats.take();
    let after = Instant::now();
    assert!(before <= first.started);
    assert!(first.started <= after);
    assert_eq!(first.started, second.started);
    assert!(first.span <= second.span);
    assert!(second.span <= after.duration_since(before));
}

#[test]
fn take_of_a_tracker_started_earlier_spans_at_least_that_long() {
    let now = Instant::now();
    let earlier = now.checked_sub(Duration::from_millis(250)).unwrap_or(now);
    let mut stats = UsageStats::started_at(earlier);
    let info = stats.take();
    assert_eq!(info.started, earlier);
    assert!(info.span >= now.duration_since(earlier));
}

#[test]
fn usage_unit_defaults_to_zero() {
    assert_eq!(UsageUnit::default(), UsageUnit { ops: 0, bytes: 0 });
}
