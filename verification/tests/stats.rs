use cleanup::stats::{
    record_unreadable_dir, record_visited_file, removal_step, CleanupStats, RemovalStage,
    RemovalStep,
};

#[test]
fn new_stats_are_zero() {
    let s = CleanupStats::new();
    assert_eq!((s.total_deleted, s.total_bytes, s.total_errors), (0, 0, 0));
    assert!(!s.found_work());
}

#[test]
fn adding_sums_each_total() {
    let mut s = CleanupStats::new();
    s.add(3, 4096, 1);
    s.add(2, 100, 0);
    assert_eq!((s.total_deleted, s.total_bytes, s.total_errors), (5, 4196, 1));
    let mut t = CleanupStats::new();
    t.add(1, 1, 1);
    t.absorb(&s);
    assert_eq!((t.total_deleted, t.total_bytes, t.total_errors), (6, 4197, 2));
}

#[test]
fn adding_in_either_order_gives_the_same_totals() {
    let mut a = CleanupStats::new();
    a.add(1, 10, 0);
    a.add(0, 5, 2);
    let mut b = CleanupStats::new();
    b.add(0, 5, 2);
    b.add(1, 10, 0);
    assert_eq!(
        (a.total_deleted, a.total_bytes, a.total_errors),
        (b.total_deleted, b.total_bytes, b.total_errors)
    );
}

#[test]
fn overflow_is_detected() {
    let mut s = CleanupStats::new();
    s.add(0, u64::MAX - 1, 0);
    assert!(s.can_add(0, 1, 0));
    assert!(!s.can_add(0, 2, 0));
    assert!(s.can_add(u64::MAX, 0, u64::MAX));
}

#[test]
fn work_is_found_when_something_was_removed_or_failed() {
    let mut s = CleanupStats::new();
    s.add(0, 500, 0);
    assert!(!s.found_work());
    s.add(0, 0, 1);
    assert!(s.found_work());
    let mut t = CleanupStats::new();
    t.add(1, 0, 0);
    assert!(t.found_work());
}

#[test]
fn removal_steps() {
    assert_eq!(removal_step(RemovalStage::FirstAttempt, true), RemovalStep::Removed);
    assert_eq!(
        removal_step(RemovalStage::FirstAttempt, false),
        RemovalStep::ClearReadOnlyAndRetry
    );
    assert_eq!(removal_step(RemovalStage::AfterClearingReadOnly, true), RemovalStep::Removed);
    assert_eq!(removal_step(RemovalStage::AfterClearingReadOnly, false), RemovalStep::Failed);
}

#[test]
fn removal_settles_within_two_attempts() {
    for first in [false, true] {
        for second in [false, true] {
            let mut step = removal_step(RemovalStage::FirstAttempt, first);
            if step == RemovalStep::ClearReadOnlyAndRetry {
                step = removal_step(RemovalStage::AfterClearingReadOnly, second);
            }
            assert_ne!(step, RemovalStep::ClearReadOnlyAndRetry);
            assert_eq!(step == RemovalStep::Removed, first || second);
        }
    }
}

#[test]
fn visited_files_are_recorded() {
    let mut s = CleanupStats::new();
    record_visited_file(&mut s, Some(1000), RemovalStep::Removed);
    record_visited_file(&mut s, None, RemovalStep::Removed);
    record_visited_file(&mut s, Some(500), RemovalStep::Failed);
    record_visited_file(&mut s, None, RemovalStep::Failed);
    assert_eq!((s.total_deleted, s.total_bytes, s.total_errors), (2, 1000, 2));
}

#[test]
fn freed_bytes_count_only_removed_files() {
    let mut s = CleanupStats::new();
    record_visited_file(&mut s, Some(4096), RemovalStep::Failed);
    assert_eq!(s.total_bytes, 0);
    record_visited_file(&mut s, Some(4096), RemovalStep::Removed);
    assert_eq!(s.total_bytes, 4096);
}

#[test]
fn unreadable_directories_count_one_error() {
    let mut s = CleanupStats::new();
    s.add(3, 30, 0);
    record_unreadable_dir(&mut s);
    assert_eq!((s.total_deleted, s.total_bytes, s.total_errors), (3, 30, 1));
}
