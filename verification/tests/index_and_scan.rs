use sensitive_audit::hashing::{FileFingerprint, FullPartialHasher};
use sensitive_audit::index::{FingerprintStep, SensitiveIndex, SensitiveRecord, SizeFilter};
use sensitive_audit::indexing::{
    classify_source, validate_index_settings, IndexMetrics, SourceDecision, SourceOutcome,
};
use sensitive_audit::error::AuditError;
use sensitive_audit::scan::{
    apply_completed_fingerprint, hash_for_scan_worker, scan_exit_code, validate_scan_settings,
    worker_queue_capacity, worker_with_full_hash, ScanMetrics, WorkerFingerprint, WorkerStep,
    WriteBatch,
};

fn rec(source: &str, size: u64, partial: &str, full: &str) -> SensitiveRecord {
    SensitiveRecord {
        source_rel: source.to_string(),
        size,
        partial_hash: partial.to_string(),
        full_hash: full.to_string(),
    }
}

fn sample_index() -> SensitiveIndex {
    SensitiveIndex::new(
        vec![
            rec("a.bin", 100, "p1", "f1"),
            rec("b.bin", 100, "p1", "f2"),
            rec("c.bin", 200, "p2", "f3"),
            rec("d.bin", 100, "p1", "f1"),
            rec("e.bin", 100, "p9", "f1"),
        ],
        64,
        "/mnt/source".to_string(),
    )
}

fn fp(size: u64, partial: &str, full: Option<&str>, bytes: u64) -> FileFingerprint {
    FileFingerprint {
        size,
        mtime_ns: 1,
        partial_hash: partial.to_string(),
        full_hash: full.map(|f| f.to_string()),
        bytes_read: bytes,
    }
}

#[test]
fn index_lookups() {
    let idx = sample_index();
    assert_eq!(idx.len(), 5);
    assert!(!idx.is_empty());
    assert_eq!(idx.partial_bytes(), 64);
    assert_eq!(idx.source_root(), "/mnt/source");
    assert!(idx.has_size(100));
    assert!(idx.has_size(200));
    assert!(!idx.has_size(300));
    assert_eq!(idx.record(2).source_rel, "c.bin");
    assert!(idx.has_partial_candidates(100, &"p1".to_string()));
    assert!(!idx.has_partial_candidates(200, &"p1".to_string()));
    assert_eq!(idx.matching_records(100, &"p1".to_string(), &"f1".to_string()), vec![0, 3]);
    assert_eq!(idx.matching_records(100, &"p1".to_string(), &"f2".to_string()), vec![1]);
    assert!(idx.matching_records(100, &"p1".to_string(), &"f3".to_string()).is_empty());
    assert!(SensitiveIndex::new(Vec::new(), 64, String::new()).is_empty());
}

#[test]
fn size_stage() {
    let idx = sample_index();
    assert_eq!(idx.classify_size(50, 60), SizeFilter::BelowMinimum);
    assert_eq!(idx.classify_size(100, 200), SizeFilter::BelowMinimum);
    assert_eq!(idx.classify_size(300, 0), SizeFilter::NotIndexedSize);
    assert_eq!(idx.classify_size(100, 0), SizeFilter::Candidate);
    assert_eq!(idx.classify_size(200, 200), SizeFilter::Candidate);
}

#[test]
fn fingerprint_stages() {
    let idx = sample_index();
    assert!(matches!(idx.classify_fingerprint(100, &fp(100, "zz", Some("f1"), 64)), FingerprintStep::NotCandidate));
    assert!(matches!(idx.classify_fingerprint(100, &fp(100, "p1", None, 64)), FingerprintStep::NeedsFullHash));
    match idx.classify_fingerprint(100, &fp(100, "p1", Some("f1"), 100)) {
        FingerprintStep::Matches(m) => assert_eq!(m, vec![0, 3]),
        _ => panic!("expected matches"),
    }
    match idx.classify_fingerprint(100, &fp(100, "p1", Some("other"), 100)) {
        FingerprintStep::Matches(m) => assert!(m.is_empty()),
        _ => panic!("expected an empty match list"),
    }
}

#[test]
fn copied_content_is_found() {
    let sensitive: Vec<u8> = (0..1000u32).map(|i| (i % 7) as u8).collect();
    let mut h = FullPartialHasher::new(64);
    h.absorb(&sensitive);
    let (partial, full, _) = h.finish();
    let idx = SensitiveIndex::new(
        vec![rec("secret.bin", 1000, &partial, &full), rec("other.bin", 1000, "x", "y")],
        64,
        "/src".to_string(),
    );
    let copy = sensitive.clone();
    let mut d = FullPartialHasher::new(64);
    for piece in copy.chunks(333) {
        d.absorb(piece);
    }
    let (dp, df, _) = d.finish();
    assert_eq!(idx.classify_size(copy.len() as u64, 0), SizeFilter::Candidate);
    match idx.classify_fingerprint(1000, &fp(1000, &dp, Some(&df), 1000)) {
        FingerprintStep::Matches(m) => assert_eq!(m, vec![0]),
        _ => panic!("copy not found"),
    }
}

#[test]
fn scan_metrics_stay_balanced() {
    let idx = sample_index();
    let mut m = ScanMetrics::new();
    assert_eq!(m.begin_file(&idx, 10, 50), SizeFilter::BelowMinimum);
    assert_eq!(m.begin_file(&idx, 300, 0), SizeFilter::NotIndexedSize);
    assert_eq!(m.begin_file(&idx, 100, 0), SizeFilter::Candidate);
    assert_eq!(m.files_seen, 3);
    assert_eq!(m.metadata_cached, 3);
    assert_eq!(m.files_skipped_min_size, 1);
    assert_eq!(m.files_skipped_size, 1);
    assert_eq!(m.size_candidates, 1);
    assert_eq!(m.files_seen, m.files_skipped_min_size + m.files_skipped_size + m.size_candidates);
    m.record_cache_hit();
    m.record_partial_hash(64);
    m.record_full_hash(100);
    m.record_read_error();
    m.record_partial_candidate();
    m.record_matches(2);
    assert_eq!((m.cache_hits, m.partial_hashed, m.full_hashed, m.read_errors), (1, 1, 1, 1));
    assert_eq!((m.partial_candidates, m.matches_found, m.bytes_hashed), (1, 2, 164));
}

#[test]
fn worker_decisions() {
    let idx = sample_index();
    match hash_for_scan_worker(100, &idx, fp(100, "p1", None, 64)) {
        WorkerStep::HashFull(p) => {
            assert_eq!(p.bytes_read, 64);
            let w = worker_with_full_hash(p.bytes_read, fp(100, "p1", Some("f1"), 100));
            assert_eq!((w.partial_hashed, w.full_hashed, w.bytes_hashed), (1, 1, 164));
            assert_eq!(w.fingerprint.full_hash.as_deref(), Some("f1"));
        }
        WorkerStep::Finished(_) => panic!("full hash needed"),
    }
    match hash_for_scan_worker(100, &idx, fp(100, "nope", None, 64)) {
        WorkerStep::Finished(w) => {
            assert_eq!((w.partial_hashed, w.full_hashed, w.bytes_hashed), (1, 0, 64));
            assert_eq!(w.fingerprint.partial_hash, "nope");
        }
        WorkerStep::HashFull(_) => panic!("not a candidate"),
    }
    match hash_for_scan_worker(40, &idx, fp(40, "p1", Some("p1"), 40)) {
        WorkerStep::Finished(w) => assert_eq!(w.full_hashed, 0),
        WorkerStep::HashFull(_) => panic!("already complete"),
    }
}

#[test]
fn applying_worker_results() {
    let idx = sample_index();
    let mut m = ScanMetrics::new();
    let w = WorkerFingerprint { fingerprint: fp(100, "p1", Some("f1"), 100), partial_hashed: 1, full_hashed: 1, bytes_hashed: 164 };
    match apply_completed_fingerprint(&mut m, &idx, 100, &w) {
        FingerprintStep::Matches(found) => assert_eq!(found, vec![0, 3]),
        _ => panic!("expected matches"),
    }
    assert_eq!((m.partial_hashed, m.full_hashed, m.bytes_hashed), (1, 1, 164));
    assert_eq!((m.partial_candidates, m.matches_found), (1, 2));
    let miss = WorkerFingerprint { fingerprint: fp(100, "zz", None, 64), partial_hashed: 1, full_hashed: 0, bytes_hashed: 64 };
    assert!(matches!(apply_completed_fingerprint(&mut m, &idx, 100, &miss), FingerprintStep::NotCandidate));
    assert_eq!((m.partial_hashed, m.partial_candidates, m.matches_found, m.bytes_hashed), (2, 1, 2, 228));
}

#[test]
fn write_batches() {
    let mut b = WriteBatch::new(3);
    b.record_write();
    b.record_write();
    assert!(!b.commit_due());
    assert_eq!(b.pending_writes(), 2);
    b.record_write();
    assert!(b.commit_due());
    assert_eq!(b.pending_writes(), 0);
    for _ in 0..5 {
        b.record_write();
    }
    assert!(b.commit_due());
    assert_eq!(b.pending_writes(), 0);
    let mut one = WriteBatch::new(1);
    one.record_write();
    assert!(one.commit_due());
}

#[test]
fn settings_validation() {
    assert_eq!(validate_scan_settings(0, 0), Err(AuditError::ThreadsZero));
    assert_eq!(validate_scan_settings(1, 0), Err(AuditError::CommitEveryZero));
    assert_eq!(validate_scan_settings(4, 1000), Ok(()));
    assert_eq!(validate_index_settings(0, 0), Err(AuditError::PartialBytesZero));
    assert_eq!(validate_index_settings(65536, 0), Err(AuditError::CommitEveryZero));
    assert_eq!(validate_index_settings(65536, 1000), Ok(()));
}

#[test]
fn queue_capacity_and_exit_code() {
    assert_eq!(worker_queue_capacity(0), 1);
    assert_eq!(worker_queue_capacity(1), 4);
    assert_eq!(worker_queue_capacity(8), 32);
    assert_eq!(worker_queue_capacity(usize::MAX), usize::MAX);
    assert_eq!(scan_exit_code(0), 0);
    assert_eq!(scan_exit_code(3), 2);
}

#[test]
fn index_run_decisions_and_metrics() {
    assert_eq!(classify_source(None, 0), SourceDecision::Missing);
    assert_eq!(classify_source(Some((false, 10)), 0), SourceDecision::NotAFile);
    assert_eq!(classify_source(Some((true, 10)), 11), SourceDecision::BelowMinimum);
    assert_eq!(classify_source(Some((true, 11)), 11), SourceDecision::Hash);
    let mut m = IndexMetrics::new();
    for outcome in [
        SourceOutcome::Missing,
        SourceOutcome::NotAFile,
        SourceOutcome::BelowMinimum,
        SourceOutcome::Indexed(500),
        SourceOutcome::ReadError,
        SourceOutcome::Indexed(20),
    ] {
        m.begin_path();
        m.finish_path(outcome);
    }
    assert_eq!(m.sensitive_paths_seen, 6);
    assert_eq!(
        (m.missing_paths, m.skipped_non_files, m.files_skipped_min_size, m.files_indexed, m.read_errors),
        (1, 1, 1, 2, 1)
    );
    assert_eq!(m.bytes_hashed, 520);
}
