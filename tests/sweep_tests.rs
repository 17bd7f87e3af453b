use imgcache::sweep::{file_expired, plan_sweep, CacheFile, NANOS_PER_SEC};

fn file(size: u64, modified_ns: u64) -> CacheFile {
    CacheFile { size, modified_ns }
}

#[test]
fn sweep_expires_only_files_older_than_ttl() {
    let ttl = 100u64;
    let now = 1_000 * NANOS_PER_SEC;
    let files = vec![
        file(1, now - (ttl - 1) * NANOS_PER_SEC),
        file(1, now - ttl * NANOS_PER_SEC),
        file(1, now - (ttl + 1) * NANOS_PER_SEC),
    ];
    let plan = plan_sweep(&files, now, ttl, u64::MAX);
    assert_eq!(plan.expired, vec![2]);
    assert!(plan.evicted.is_empty());
    assert_eq!(plan.total_before, 3);
    assert_eq!(plan.total_after, 2);
}

#[test]
fn sweep_evicts_oldest_first_until_within_budget() {
    let now = 10_000 * NANOS_PER_SEC;
    let files = vec![file(30, now - 10), file(10, now - 30), file(20, now - 20)];
    let plan = plan_sweep(&files, now, 3600, 35);
    assert!(plan.expired.is_empty());
    assert_eq!(plan.evicted, vec![1, 2]);
    assert_eq!(plan.total_before, 60);
    assert_eq!(plan.total_after, 30);
}

#[test]
fn sweep_within_budget_deletes_nothing() {
    let now = 50 * NANOS_PER_SEC;
    let files = vec![file(10, now), file(20, now)];
    let plan = plan_sweep(&files, now, 60, 30);
    assert!(plan.expired.is_empty());
    assert!(plan.evicted.is_empty());
    assert_eq!(plan.total_after, 30);
}

#[test]
fn sweep_with_zero_ttl_expires_every_file_modified_before_now() {
    let now = 50 * NANOS_PER_SEC;
    let files = vec![
        file(5, now - NANOS_PER_SEC),
        file(5, now - NANOS_PER_SEC / 2),
        file(5, now - 1),
        file(5, now),
        file(5, now + 7),
    ];
    let plan = plan_sweep(&files, now, 0, u64::MAX);
    assert_eq!(plan.expired, vec![0, 1, 2]);
    assert_eq!(plan.total_after, 10);
}

#[test]
fn sweep_expires_a_file_half_a_second_past_ttl() {
    let now = 1_000 * NANOS_PER_SEC;
    let files = vec![file(1, now - 100 * NANOS_PER_SEC - NANOS_PER_SEC / 2), file(1, now - 100 * NANOS_PER_SEC)];
    let plan = plan_sweep(&files, now, 100, u64::MAX);
    assert_eq!(plan.expired, vec![0]);
}

#[test]
fn sweep_with_zero_budget_evicts_everything() {
    let now = 50 * NANOS_PER_SEC;
    let files = vec![file(4, now - 1), file(0, now - 3), file(6, now - 2)];
    let plan = plan_sweep(&files, now, 60, 0);
    assert_eq!(plan.evicted, vec![1, 2, 0]);
    assert_eq!(plan.total_after, 0);
}

#[test]
fn sweep_breaks_ties_by_scan_order() {
    let now = 50 * NANOS_PER_SEC;
    let files = vec![file(10, now - 5), file(10, now - 5), file(10, now - 5)];
    let plan = plan_sweep(&files, now, 60, 15);
    assert_eq!(plan.evicted, vec![0, 1]);
    assert_eq!(plan.total_after, 10);
}

#[test]
fn sweep_expiry_then_size_pass() {
    let now = 1_000 * NANOS_PER_SEC;
    let files = vec![
        file(100, 0),
        file(10, now - 3 * NANOS_PER_SEC),
        file(20, now - 2 * NANOS_PER_SEC),
        file(30, now - NANOS_PER_SEC),
    ];
    let plan = plan_sweep(&files, now, 60, 35);
    assert_eq!(plan.expired, vec![0]);
    assert_eq!(plan.evicted, vec![1, 2]);
    assert_eq!(plan.total_before, 160);
    assert_eq!(plan.total_after, 30);
}

#[test]
fn sweep_of_empty_tree() {
    let plan = plan_sweep(&Vec::new(), 0, 0, 0);
    assert!(plan.expired.is_empty() && plan.evicted.is_empty());
    assert_eq!(plan.total_before, 0);
    assert_eq!(plan.total_after, 0);
}

#[test]
fn expiry_compares_exact_age() {
    let now = 100 * NANOS_PER_SEC;
    assert!(file_expired(file(1, now - 10 * NANOS_PER_SEC - 1), now, 10));
    assert!(!file_expired(file(1, now - 10 * NANOS_PER_SEC), now, 10));
    assert!(file_expired(file(1, now - 11 * NANOS_PER_SEC), now, 10));
    assert!(!file_expired(file(1, now + 5 * NANOS_PER_SEC), now, 0));
    assert!(file_expired(file(1, 0), u64::MAX, u64::MAX / NANOS_PER_SEC));
    assert!(!file_expired(file(1, 0), u64::MAX, u64::MAX / NANOS_PER_SEC + 1));
    assert!(!file_expired(file(1, 0), u64::MAX, u64::MAX));
}
