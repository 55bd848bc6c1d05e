use sensitive_audit::clock::{now_string, progress_due, should_report_progress};
use sensitive_audit::hashing::{
    fingerprint_from_cache, fingerprint_from_partial, CacheEntry, FullPartialHasher, PrefixHasher,
};
use std::time::{Duration, Instant};

const EMPTY_BLAKE3: &str = "af1349b9f5f9a1a6a0404dea36dcc9499bcb25c9adc112b7cc9a93cae41f3262";

fn hex(data: &[u8]) -> String {
    blake3::hash(data).to_hex().to_string()
}

fn content(len: usize) -> Vec<u8> {
    (0..len).map(|i| (i * 31 % 251) as u8).collect()
}

#[test]
fn prefix_hasher_of_nothing_is_empty_hash() {
    let h = PrefixHasher::new(10);
    assert_eq!(h.finish(), EMPTY_BLAKE3);
}

#[test]
fn prefix_hasher_stops_at_limit() {
    let data = content(300);
    let mut h = PrefixHasher::new(100);
    let mut pos = 0;
    loop {
        let want = h.next_read_len(64);
        if want == 0 {
            break;
        }
        let end = (pos + want).min(data.len());
        h.absorb(&data[pos..end]);
        pos = end;
    }
    assert_eq!(pos, 100);
    assert_eq!(h.remaining(), 0);
    assert_eq!(h.finish(), hex(&data[..100]));
    assert_ne!(h.finish(), hex(&data));
}

#[test]
fn full_partial_hasher_chunking_does_not_matter() {
    let data = content(5000);
    for chunk in [1usize, 7, 64, 100, 4096, 10000] {
        let mut h = FullPartialHasher::new(100);
        for piece in data.chunks(chunk) {
            h.absorb(piece);
        }
        let (partial, full, bytes) = h.finish();
        assert_eq!(partial, hex(&data[..100]));
        assert_eq!(full, hex(&data));
        assert_eq!(bytes, 5000);
        assert_eq!(h.bytes_read(), 5000);
    }
}

#[test]
fn short_content_partial_equals_full() {
    let data = content(50);
    let mut h = FullPartialHasher::new(100);
    h.absorb(&data);
    let (partial, full, bytes) = h.finish();
    assert_eq!(partial, full);
    assert_eq!(bytes, 50);
    let mut p = PrefixHasher::new(100);
    p.absorb(&data);
    assert_eq!(p.finish(), full);
}

#[test]
fn same_prefix_different_tail_shares_partial_only() {
    let a = content(500);
    let mut b = a.clone();
    b[400] ^= 0xff;
    let run = |d: &[u8]| {
        let mut h = FullPartialHasher::new(256);
        h.absorb(d);
        h.finish()
    };
    let (pa, fa, _) = run(&a);
    let (pb, fb, _) = run(&b);
    assert_eq!(pa, pb);
    assert_ne!(fa, fb);
    assert_eq!(fa.len(), 64);
    assert!(fa.chars().all(|c| c.is_ascii_hexdigit() && !c.is_ascii_uppercase()));
}

#[test]
fn fingerprint_from_partial_small_and_large() {
    let small = fingerprint_from_partial(10, 5, 64, "p".to_string());
    assert_eq!(small.full_hash.as_deref(), Some("p"));
    assert_eq!(small.bytes_read, 10);
    assert_eq!(small.size, 10);
    assert_eq!(small.mtime_ns, 5);
    let exact = fingerprint_from_partial(64, 5, 64, "p".to_string());
    assert_eq!(exact.full_hash.as_deref(), Some("p"));
    assert_eq!(exact.bytes_read, 64);
    let large = fingerprint_from_partial(1000, 5, 64, "p".to_string());
    assert!(large.full_hash.is_none());
    assert_eq!(large.bytes_read, 64);
    assert_eq!(large.partial_hash, "p");
}

#[test]
fn fingerprint_from_cache_reads_nothing() {
    let fp = fingerprint_from_cache(CacheEntry {
        size: 9,
        mtime_ns: -3,
        partial_hash: "a".to_string(),
        full_hash: Some("b".to_string()),
    });
    assert_eq!(fp.size, 9);
    assert_eq!(fp.mtime_ns, -3);
    assert_eq!(fp.partial_hash, "a");
    assert_eq!(fp.full_hash.as_deref(), Some("b"));
    assert_eq!(fp.bytes_read, 0);
}

#[test]
fn progress_pacing() {
    assert!(!progress_due(100, 0));
    assert!(progress_due(10, 10));
    assert!(!progress_due(9, 10));
    let start = Instant::now();
    let mut last = start;
    assert!(!should_report_progress(&mut last, 0));
    assert_eq!(last, start);
    assert!(!should_report_progress(&mut last, 3600));
    assert_eq!(last, start);
    let mut old = Instant::now() - Duration::from_secs(5);
    let before = old;
    assert!(should_report_progress(&mut old, 1));
    assert!(old > before);
}

#[test]
fn now_string_is_decimal_seconds() {
    let s = now_string();
    assert!(!s.is_empty());
    assert!(s.chars().all(|c| c.is_ascii_digit()));
    let secs: u64 = s.parse().unwrap();
    assert!(secs > 1_600_000_000);
}
