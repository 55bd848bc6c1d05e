use sensitive_audit::hashing::{CacheEntry, FileFingerprint};
use sensitive_audit::index::{SensitiveIndex, SensitiveRecord};
use sensitive_audit::pipeline::{FileAction, FileScan};
use sensitive_audit::index::FingerprintStep;
use sensitive_audit::scan::{apply_completed_fingerprint, ScanMetrics, WorkerFingerprint};

fn index() -> SensitiveIndex {
    let rec = |s: &str, size: u64, p: &str, f: &str| SensitiveRecord {
        source_rel: s.to_string(),
        size,
        partial_hash: p.to_string(),
        full_hash: f.to_string(),
    };
    SensitiveIndex::new(
        vec![
            rec("a", 100, "p1", "f1"),
            rec("b", 100, "p1", "f2"),
            rec("c", 100, "p1", "f1"),
            rec("small", 10, "s", "s"),
        ],
        64,
        "/src".to_string(),
    )
}

fn fp(size: u64, partial: &str, full: Option<&str>, bytes: u64) -> FileFingerprint {
    FileFingerprint {
        size,
        mtime_ns: 0,
        partial_hash: partial.to_string(),
        full_hash: full.map(str::to_string),
        bytes_read: bytes,
    }
}

#[test]
fn start_chooses_first_step() {
    assert!(matches!(FileScan::start(1, true, true).1, FileAction::LookupCache));
    assert!(matches!(FileScan::start(1, false, true).1, FileAction::SendToWorker));
    assert!(matches!(FileScan::start(1, false, false).1, FileAction::HashPartial));
    assert!(FileScan::start(1, false, false).0.fingerprint().is_none());
}

#[test]
fn cache_miss_goes_on_to_hashing() {
    let idx = index();
    let mut m = ScanMetrics::new();
    let (mut scan, _) = FileScan::start(100, true, false);
    assert!(matches!(scan.on_cache_lookup(&mut m, &idx, None), FileAction::HashPartial));
    assert_eq!(m, ScanMetrics::new());
    let (mut scan, _) = FileScan::start(100, true, true);
    assert!(matches!(scan.on_cache_lookup(&mut m, &idx, None), FileAction::SendToWorker));
}

#[test]
fn cache_hit_that_is_no_candidate_finishes() {
    let idx = index();
    let mut m = ScanMetrics::new();
    let (mut scan, _) = FileScan::start(100, true, false);
    let entry = CacheEntry { size: 100, mtime_ns: 3, partial_hash: "other".into(), full_hash: None };
    assert!(matches!(scan.on_cache_lookup(&mut m, &idx, Some(entry)), FileAction::Finish));
    assert_eq!((m.cache_hits, m.partial_candidates, m.matches_found), (1, 0, 0));
    assert_eq!(scan.fingerprint().unwrap().bytes_read, 0);
}

#[test]
fn cache_hit_then_full_hash_reports_once_counted() {
    let idx = index();
    let mut m = ScanMetrics::new();
    let (mut scan, _) = FileScan::start(100, true, false);
    let entry = CacheEntry { size: 100, mtime_ns: 3, partial_hash: "p1".into(), full_hash: None };
    assert!(matches!(scan.on_cache_lookup(&mut m, &idx, Some(entry)), FileAction::HashFull));
    assert_eq!(m.partial_candidates, 1);
    let step = scan.on_full_hash(&mut m, &idx, fp(100, "p1", Some("f1"), 100));
    assert!(step.store_in_cache);
    match step.action {
        FileAction::Report(positions) => assert_eq!(positions, vec![0, 2]),
        other => panic!("unexpected {other:?}"),
    }
    assert_eq!((m.cache_hits, m.partial_candidates, m.full_hashed, m.matches_found, m.bytes_hashed), (1, 1, 1, 2, 100));
    assert_eq!(scan.fingerprint().unwrap().full_hash.as_deref(), Some("f1"));
}

#[test]
fn partial_hash_without_candidate_is_stored_and_finishes() {
    let idx = index();
    let mut m = ScanMetrics::new();
    let (mut scan, _) = FileScan::start(100, false, false);
    let step = scan.on_partial_hash(&mut m, &idx, fp(100, "zz", None, 64));
    assert!(step.store_in_cache);
    assert!(matches!(step.action, FileAction::Finish));
    assert_eq!((m.partial_hashed, m.bytes_hashed, m.partial_candidates), (1, 64, 0));
}

#[test]
fn partial_candidate_needs_full_pass_before_storing() {
    let idx = index();
    let mut m = ScanMetrics::new();
    let (mut scan, _) = FileScan::start(100, false, false);
    let step = scan.on_partial_hash(&mut m, &idx, fp(100, "p1", None, 64));
    assert!(!step.store_in_cache);
    assert!(matches!(step.action, FileAction::HashFull));
    assert_eq!(m.partial_candidates, 0);
    let step = scan.on_full_hash(&mut m, &idx, fp(100, "p1", Some("f2"), 100));
    assert!(step.store_in_cache);
    match step.action {
        FileAction::Report(positions) => assert_eq!(positions, vec![1]),
        other => panic!("unexpected {other:?}"),
    }
    assert_eq!((m.partial_hashed, m.full_hashed, m.partial_candidates, m.matches_found, m.bytes_hashed), (1, 1, 1, 1, 164));
}

#[test]
fn same_size_and_prefix_but_other_tail_reports_nothing() {
    let idx = index();
    let mut m = ScanMetrics::new();
    let (mut scan, _) = FileScan::start(100, false, false);
    scan.on_partial_hash(&mut m, &idx, fp(100, "p1", None, 64));
    match scan.on_full_hash(&mut m, &idx, fp(100, "p1", Some("different"), 100)).action {
        FileAction::Report(positions) => assert!(positions.is_empty()),
        other => panic!("unexpected {other:?}"),
    }
    assert_eq!((m.partial_candidates, m.matches_found), (1, 0));
}

#[test]
fn short_file_is_decided_by_partial_pass() {
    let idx = index();
    let mut m = ScanMetrics::new();
    let (mut scan, _) = FileScan::start(10, false, false);
    let step = scan.on_partial_hash(&mut m, &idx, fp(10, "s", Some("s"), 10));
    assert!(step.store_in_cache);
    match step.action {
        FileAction::Report(positions) => assert_eq!(positions, vec![3]),
        other => panic!("unexpected {other:?}"),
    }
    assert_eq!((m.full_hashed, m.matches_found), (0, 1));
}

#[test]
fn read_error_finishes_the_file() {
    let mut m = ScanMetrics::new();
    let (mut scan, _) = FileScan::start(100, false, false);
    assert!(matches!(scan.on_read_error(&mut m), FileAction::Finish));
    assert_eq!(m.read_errors, 1);
}

#[test]
fn worker_and_own_hashing_report_the_same_list() {
    let idx = index();
    let mut own = ScanMetrics::new();
    let (mut scan, _) = FileScan::start(100, false, false);
    scan.on_partial_hash(&mut own, &idx, fp(100, "p1", None, 64));
    let own_list = match scan.on_full_hash(&mut own, &idx, fp(100, "p1", Some("f1"), 100)).action {
        FileAction::Report(positions) => positions,
        other => panic!("unexpected {other:?}"),
    };
    let mut via_worker = ScanMetrics::new();
    let w = WorkerFingerprint { fingerprint: fp(100, "p1", Some("f1"), 100), partial_hashed: 1, full_hashed: 1, bytes_hashed: 164 };
    let worker_list = match apply_completed_fingerprint(&mut via_worker, &idx, 100, &w) {
        FingerprintStep::Matches(positions) => positions,
        other => panic!("unexpected {other:?}"),
    };
    assert_eq!(own_list, worker_list);
    assert_eq!(own, via_worker);
}

#[test]
fn stale_cached_partial_fixes_the_candidates() {
    let idx = index();
    let mut m = ScanMetrics::new();
    let (mut scan, _) = FileScan::start(100, true, false);
    let entry = CacheEntry { size: 100, mtime_ns: 3, partial_hash: "p1".into(), full_hash: None };
    assert!(matches!(scan.on_cache_lookup(&mut m, &idx, Some(entry)), FileAction::HashFull));
    let step = scan.on_full_hash(&mut m, &idx, fp(100, "changed", Some("f1"), 100));
    assert!(step.store_in_cache);
    match step.action {
        FileAction::Report(positions) => assert_eq!(positions, vec![0, 2]),
        other => panic!("unexpected {other:?}"),
    }
    assert_eq!((m.partial_candidates, m.matches_found, m.full_hashed), (1, 2, 1));
    assert_eq!(scan.fingerprint().unwrap().partial_hash, "changed");
    let (mut other, _) = FileScan::start(100, true, false);
    let entry = CacheEntry { size: 100, mtime_ns: 3, partial_hash: "p1".into(), full_hash: None };
    other.on_cache_lookup(&mut m, &idx, Some(entry));
    assert!(matches!(other.on_full_hash(&mut m, &idx, fp(100, "p1", None, 100)).action, FileAction::Finish));
}
