//! The decisions of a destination scan: what each file's size and
//! fingerprint lead to, what the hash workers report, the metrics kept, and
//! when the database transaction is committed.
use vstd::prelude::*;

use crate::error::AuditError;
use crate::hashing::FileFingerprint;
use crate::index::{
    FingerprintStep, SensitiveIndex, SizeFilter, exact_positions, has_partial_spec,
    is_full_match, size_filter_spec,
};

verus! {

/// The counters that a scan reports.
#[derive(Debug, Clone, Copy, PartialEq, Eq, Structural)]
pub struct ScanMetrics {
    pub files_seen: u64,
    pub metadata_cached: u64,
    pub files_skipped_min_size: u64,
    pub files_skipped_size: u64,
    pub size_candidates: u64,
    pub cache_hits: u64,
    pub partial_hashed: u64,
    pub full_hashed: u64,
    pub partial_candidates: u64,
    pub matches_found: u64,
    pub read_errors: u64,
    pub bytes_hashed: u64,
}

/// All counters at zero.
pub open spec fn zero_metrics() -> ScanMetrics {
    ScanMetrics {
        files_seen: 0,
        metadata_cached: 0,
        files_skipped_min_size: 0,
        files_skipped_size: 0,
        size_candidates: 0,
        cache_hits: 0,
        partial_hashed: 0,
        full_hashed: 0,
        partial_candidates: 0,
        matches_found: 0,
        read_errors: 0,
        bytes_hashed: 0,
    }
}

/// The metrics after one more destination file has had its metadata
/// stored and gone the way `f` at the size stage.
pub open spec fn counted_file(m: ScanMetrics, f: SizeFilter) -> ScanMetrics {
    ScanMetrics {
        files_seen: (m.files_seen + 1) as u64,
        metadata_cached: (m.metadata_cached + 1) as u64,
        files_skipped_min_size: if f == SizeFilter::BelowMinimum {
            (m.files_skipped_min_size + 1) as u64
        } else {
            m.files_skipped_min_size
        },
        files_skipped_size: if f == SizeFilter::NotIndexedSize {
            (m.files_skipped_size + 1) as u64
        } else {
            m.files_skipped_size
        },
        size_candidates: if f == SizeFilter::Candidate {
            (m.size_candidates + 1) as u64
        } else {
            m.size_candidates
        },
        ..m
    }
}

impl ScanMetrics {
    /// All counters at zero.
    pub fn new() -> (m: Self)
        ensures
            m == zero_metrics(),
            m.filters_balanced(),
    {
        ScanMetrics {
            files_seen: 0,
            metadata_cached: 0,
            files_skipped_min_size: 0,
            files_skipped_size: 0,
            size_candidates: 0,
            cache_hits: 0,
            partial_hashed: 0,
            full_hashed: 0,
            partial_candidates: 0,
            matches_found: 0,
            read_errors: 0,
            bytes_hashed: 0,
        }
    }

    /// Every file seen has had its metadata stored, and has gone exactly one
    /// way at the size stage.
    pub open spec fn filters_balanced(&self) -> bool {
        &&& self.metadata_cached == self.files_seen
        &&& self.files_seen == self.files_skipped_min_size + self.files_skipped_size
            + self.size_candidates
    }

    /// Counts a destination file whose metadata is stored, and takes it
    /// through the size stage.
    pub fn begin_file(&mut self, index: &SensitiveIndex, size: u64, min_size: u64) -> (f: SizeFilter)
        requires
            old(self).filters_balanced(),
            old(self).files_seen < u64::MAX,
        ensures
            f == size_filter_spec(index.records(), size, min_size),
            final(self).filters_balanced(),
            *final(self) == counted_file(*old(self), f),
    {
        self.files_seen = self.files_seen + 1;
        self.metadata_cached = self.metadata_cached + 1;
        let f = index.classify_size(size, min_size);
        match f {
            SizeFilter::BelowMinimum => {
                self.files_skipped_min_size = self.files_skipped_min_size + 1;
            },
            SizeFilter::NotIndexedSize => {
                self.files_skipped_size = self.files_skipped_size + 1;
            },
            SizeFilter::Candidate => {
                self.size_candidates = self.size_candidates + 1;
            },
        }
        f
    }

    /// Counts a fingerprint taken from the cache.
    pub fn record_cache_hit(&mut self)
        requires
            old(self).cache_hits < u64::MAX,
        ensures
            *final(self) == (ScanMetrics {
                cache_hits: (old(self).cache_hits + 1) as u64,
                ..*old(self)
            }),
    {
        self.cache_hits = self.cache_hits + 1;
    }

    /// Counts a partial-hash pass that read `bytes` bytes.
    pub fn record_partial_hash(&mut self, bytes: u64)
        requires
            old(self).partial_hashed < u64::MAX,
            old(self).bytes_hashed + bytes <= u64::MAX,
        ensures
            *final(self) == (ScanMetrics {
                partial_hashed: (old(self).partial_hashed + 1) as u64,
                bytes_hashed: (old(self).bytes_hashed + bytes) as u64,
                ..*old(self)
            }),
    {
        self.partial_hashed = self.partial_hashed + 1;
        self.bytes_hashed = self.bytes_hashed + bytes;
    }

    /// Counts a full-hash pass that read `bytes` bytes.
    pub fn record_full_hash(&mut self, bytes: u64)
        requires
            old(self).full_hashed < u64::MAX,
            old(self).bytes_hashed + bytes <= u64::MAX,
        ensures
            *final(self) == (ScanMetrics {
                full_hashed: (old(self).full_hashed + 1) as u64,
                bytes_hashed: (old(self).bytes_hashed + bytes) as u64,
                ..*old(self)
            }),
    {
        self.full_hashed = self.full_hashed + 1;
        self.bytes_hashed = self.bytes_hashed + bytes;
    }

    /// Counts an entry or a file that could not be read.
    pub fn record_read_error(&mut self)
        requires
            old(self).read_errors < u64::MAX,
        ensures
            *final(self) == (ScanMetrics {
                read_errors: (old(self).read_errors + 1) as u64,
                ..*old(self)
            }),
    {
        self.read_errors = self.read_errors + 1;
    }

    /// Counts a file whose size and partial hash match some sensitive file.
    pub fn record_partial_candidate(&mut self)
        requires
            old(self).partial_candidates < u64::MAX,
        ensures
            *final(self) == (ScanMetrics {
                partial_candidates: (old(self).partial_candidates + 1) as u64,
                ..*old(self)
            }),
    {
        self.partial_candidates = self.partial_candidates + 1;
    }

    /// Counts `count` confirmed matches.
    pub fn record_matches(&mut self, count: u64)
        requires
            old(self).matches_found + count <= u64::MAX,
        ensures
            *final(self) == (ScanMetrics {
                matches_found: (old(self).matches_found + count) as u64,
                ..*old(self)
            }),
    {
        self.matches_found = self.matches_found + count;
    }
}

/// The fingerprint a hash worker sends back, with the passes it made.
#[derive(Debug)]
pub struct WorkerFingerprint {
    pub fingerprint: FileFingerprint,
    pub partial_hashed: u64,
    pub full_hashed: u64,
    pub bytes_hashed: u64,
}

/// What a hash worker does after the partial-hash pass.
#[derive(Debug)]
pub enum WorkerStep {
    /// The partial pass decides: the fingerprint is complete.
    Finished(WorkerFingerprint),
    /// The file is a partial candidate whose full hash is unknown: the
    /// worker reads the whole file; the partial fingerprint is handed back.
    HashFull(FileFingerprint),
}

/// A hash worker's decision after the partial-hash pass over a file of
/// `size` bytes: it needs the full hash only when some sensitive file has
/// the same size and partial hash and the partial pass did not already read
/// the whole file.
pub fn hash_for_scan_worker(size: u64, index: &SensitiveIndex, partial: FileFingerprint) -> (step:
    WorkerStep)
    ensures
        step is HashFull <==> (has_partial_spec(index.records(), size, partial.partial_hash@)
            && partial.full_hash is None),
        step matches WorkerStep::HashFull(p) ==> p == partial,
        step matches WorkerStep::Finished(w) ==> (w.fingerprint == partial && w.partial_hashed == 1
            && w.full_hashed == 0 && w.bytes_hashed == partial.bytes_read),
{
    if !index.has_partial_candidates(size, &partial.partial_hash) || partial.full_hash.is_some() {
        let bytes = partial.bytes_read;
        WorkerStep::Finished(
            WorkerFingerprint { fingerprint: partial, partial_hashed: 1, full_hashed: 0, bytes_hashed: bytes },
        )
    } else {
        WorkerStep::HashFull(partial)
    }
}

/// The worker's result once the full-hash pass has been made after the
/// partial one.
pub fn worker_with_full_hash(partial_bytes_read: u64, full: FileFingerprint) -> (w: WorkerFingerprint)
    requires
        partial_bytes_read + full.bytes_read <= u64::MAX,
    ensures
        w.fingerprint == full,
        w.partial_hashed == 1,
        w.full_hashed == 1,
        w.bytes_hashed == partial_bytes_read + full.bytes_read,
{
    let bytes = partial_bytes_read + full.bytes_read;
    WorkerFingerprint { fingerprint: full, partial_hashed: 1, full_hashed: 1, bytes_hashed: bytes }
}

pub(crate) proof fn lemma_increasing_positions_fit(s: Seq<usize>, n: int)
    requires
        n >= 0,
        forall|k: int| 0 <= k < s.len() ==> #[trigger] s[k] < n,
        forall|k1: int, k2: int| 0 <= k1 < k2 < s.len() ==> #[trigger] s[k1] < #[trigger] s[k2],
    ensures
        s.len() <= n,
    decreases s.len(),
{
    if s.len() > 0 {
        let t = s.drop_last();
        assert forall|k: int| 0 <= k < t.len() implies #[trigger] t[k] < s[s.len() - 1] by {
            assert(s[k] < s[s.len() - 1]);
        }
        lemma_increasing_positions_fit(t, s[s.len() - 1] as int);
        assert(s[s.len() - 1] < n);
    }
}

/// The number of matches that a fingerprint step lists.
pub open spec fn step_count(step: FingerprintStep) -> int {
    match step {
        FingerprintStep::Matches(m) => m@.len() as int,
        _ => 0,
    }
}

/// The metrics after a hash worker's result is folded in: its passes and
/// bytes are added, a partial candidate is counted unless the step is
/// `NotCandidate`, and every listed match is counted.
pub open spec fn applied_metrics(m: ScanMetrics, w: WorkerFingerprint, step: FingerprintStep) -> ScanMetrics {
    ScanMetrics {
        partial_hashed: (m.partial_hashed + w.partial_hashed) as u64,
        full_hashed: (m.full_hashed + w.full_hashed) as u64,
        bytes_hashed: (m.bytes_hashed + w.bytes_hashed) as u64,
        partial_candidates: if step is NotCandidate {
            m.partial_candidates
        } else {
            (m.partial_candidates + 1) as u64
        },
        matches_found: (m.matches_found + step_count(step)) as u64,
        ..m
    }
}

/// Folds a hash worker's result into the scan: counts its passes, then
/// takes its fingerprint through the partial-hash and full-hash stages,
/// counting a partial candidate and the confirmed matches.
pub fn apply_completed_fingerprint(
    metrics: &mut ScanMetrics,
    index: &SensitiveIndex,
    size: u64,
    worker: &WorkerFingerprint,
) -> (step: FingerprintStep)
    requires
        old(metrics).partial_hashed + worker.partial_hashed <= u64::MAX,
        old(metrics).full_hashed + worker.full_hashed <= u64::MAX,
        old(metrics).bytes_hashed + worker.bytes_hashed <= u64::MAX,
        old(metrics).partial_candidates < u64::MAX,
        old(metrics).matches_found + index.records().len() <= u64::MAX,
    ensures
        step is NotCandidate <==> !has_partial_spec(
            index.records(),
            size,
            worker.fingerprint.partial_hash@,
        ),
        step is NeedsFullHash <==> (has_partial_spec(
            index.records(),
            size,
            worker.fingerprint.partial_hash@,
        ) && worker.fingerprint.full_hash is None),
        step matches FingerprintStep::Matches(m) ==> (worker.fingerprint.full_hash matches Some(f)
            && exact_positions(
            index.records(),
            m@,
            |rec| is_full_match(rec, size, worker.fingerprint.partial_hash@, f@),
        )),
        *final(metrics) == applied_metrics(*old(metrics), *worker, step),
{
    metrics.partial_hashed = metrics.partial_hashed + worker.partial_hashed;
    metrics.full_hashed = metrics.full_hashed + worker.full_hashed;
    metrics.bytes_hashed = metrics.bytes_hashed + worker.bytes_hashed;
    let step = index.classify_fingerprint(size, &worker.fingerprint);
    match &step {
        FingerprintStep::NotCandidate => {},
        FingerprintStep::NeedsFullHash => {
            metrics.partial_candidates = metrics.partial_candidates + 1;
        },
        FingerprintStep::Matches(m) => {
            metrics.partial_candidates = metrics.partial_candidates + 1;
            proof {
                lemma_increasing_positions_fit(m@, index.records().len() as int);
            }
            metrics.matches_found = metrics.matches_found + m.len() as u64;
        },
    }
    step
}

/// Counts the writes made in the open transaction and says when to commit.
pub struct WriteBatch {
    pending: u64,
    commit_every: u64,
}

impl WriteBatch {
    #[verifier::type_invariant]
    spec fn commits_at_some_count(&self) -> bool {
        self.commit_every > 0
    }

    /// The writes made since the last commit.
    pub closed spec fn pending(&self) -> u64 {
        self.pending
    }

    /// How many writes a transaction may gather before it is committed.
    pub closed spec fn commit_every(&self) -> u64 {
        self.commit_every
    }

    /// A batch with nothing pending that commits every `commit_every` writes.
    pub fn new(commit_every: u64) -> (b: Self)
        requires
            commit_every > 0,
        ensures
            b.pending() == 0,
            b.commit_every() == commit_every,
    {
        WriteBatch { pending: 0, commit_every }
    }

    /// The writes made since the last commit.
    pub fn pending_writes(&self) -> (n: u64)
        ensures
            n == self.pending(),
    {
        self.pending
    }

    /// Counts one write.
    pub fn record_write(&mut self)
        requires
            old(self).pending() < u64::MAX,
        ensures
            final(self).pending() == old(self).pending() + 1,
            final(self).commit_every() == old(self).commit_every(),
    {
        proof {
            use_type_invariant(&*self);
        }
        self.pending = self.pending + 1;
    }

    /// Whether the transaction is to be committed now, that is once
    /// `commit_every` writes are pending; the count then restarts at zero.
    /// Right after the decision fewer than `commit_every` writes are left
    /// uncommitted, which bounds what an interruption can lose.
    pub fn commit_due(&mut self) -> (due: bool)
        ensures
            due == (old(self).pending() >= old(self).commit_every()),
            due ==> final(self).pending() == 0,
            !due ==> final(self).pending() == old(self).pending(),
            final(self).commit_every() == old(self).commit_every(),
            final(self).pending() < final(self).commit_every(),
    {
        proof {
            use_type_invariant(&*self);
        }
        if self.pending >= self.commit_every {
            self.pending = 0;
            true
        } else {
            false
        }
    }
}

/// Refuses a scan with no worker thread or with `commit_every` zero.
pub fn validate_scan_settings(threads: usize, commit_every: u64) -> (r: Result<(), AuditError>)
    ensures
        threads == 0 ==> r == Err::<(), AuditError>(AuditError::ThreadsZero),
        threads > 0 && commit_every == 0 ==> r == Err::<(), AuditError>(AuditError::CommitEveryZero),
        threads > 0 && commit_every > 0 ==> r is Ok,
{
    if threads == 0 {
        return Err(AuditError::ThreadsZero);
    }
    if commit_every == 0 {
        return Err(AuditError::CommitEveryZero);
    }
    Ok(())
}

/// The capacity of the queue of hash jobs: four per worker, at least one.
pub fn worker_queue_capacity(threads: usize) -> (cap: usize)
    ensures
        cap == if threads * 4 > usize::MAX {
            usize::MAX as int
        } else if threads == 0 {
            1
        } else {
            threads * 4
        },
{
    let scaled = if threads > usize::MAX / 4 {
        usize::MAX
    } else {
        threads * 4
    };
    if scaled == 0 {
        1
    } else {
        scaled
    }
}

/// The process exit code after a scan: 2 when a match was found, else 0.
pub fn scan_exit_code(matches_found: u64) -> (code: i32)
    ensures
        code == if matches_found > 0 {
            2i32
        } else {
            0i32
        },
{
    if matches_found > 0 {
        2
    } else {
        0
    }
}

} // verus!
