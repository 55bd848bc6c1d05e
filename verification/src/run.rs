//! A whole destination scan: its metrics, the file being scanned and the
//! files handed to the hash workers, kept together so that the run-wide
//! bounds on the counters hold after every step.
use vstd::prelude::*;

use crate::hashing::{CacheEntry, FileFingerprint};
use crate::index::{
    FingerprintStep, SensitiveIndex, SizeFilter, exact_positions, has_partial_spec,
    is_full_match, size_filter_spec,
};
use crate::pipeline::{
    FileAction, FileScan, FileStep, after_cache_lookup, after_full_hash, after_partial_hash,
    counted_after, has_room,
};
use crate::scan::{
    ScanMetrics, WorkerFingerprint, applied_metrics, apply_completed_fingerprint, counted_file,
    zero_metrics,
};

verus! {

/// The run-wide bounds: every file seen went one way at the size stage, and
/// no more cache hits and no more partial candidates were counted than files
/// passed the size stage.
pub open spec fn counters_bounded(m: ScanMetrics) -> bool {
    &&& m.filters_balanced()
    &&& m.cache_hits <= m.size_candidates
    &&& m.partial_candidates <= m.size_candidates
}

/// A destination scan in progress.
pub struct ScanRun {
    metrics: ScanMetrics,
    file: FileScan,
    open: bool,
    cache_pending: bool,
    jobs_out: u64,
}

proof fn lemma_candidate_credit(
    m: ScanMetrics,
    recs: Seq<crate::index::SensitiveRecord>,
    size: u64,
    fp: FileFingerprint,
    counted: bool,
    a: FileAction,
)
    requires
        m.partial_candidates < u64::MAX,
    ensures
        ({
            let m2 = counted_after(m, recs, size, fp, counted, a);
            let counted2 = counted || has_partial_spec(recs, size, fp.partial_hash@);
            m2.partial_candidates + (if counted2 { 0int } else { 1int }) == m.partial_candidates + (
            if counted {
                0int
            } else {
                1int
            })
        }),
{
}

impl ScanRun {
    /// The metrics so far.
    pub closed spec fn tally(&self) -> ScanMetrics {
        self.metrics
    }

    /// The scan of the current file.
    pub closed spec fn file(&self) -> FileScan {
        self.file
    }

    /// Whether a file that passed the size stage is being scanned.
    pub closed spec fn file_open(&self) -> bool {
        self.open
    }

    /// Whether the current file has yet to be looked up in the cache.
    pub closed spec fn cache_pending(&self) -> bool {
        self.cache_pending
    }

    /// The files handed to the hash workers whose result is not folded in.
    pub closed spec fn jobs_out(&self) -> u64 {
        self.jobs_out
    }

    /// The run's bookkeeping: what the counters hold, with the counts that
    /// the current file and the outstanding jobs may still add.
    pub closed spec fn wf(&self) -> bool {
        &&& self.metrics.filters_balanced()
        &&& self.metrics.cache_hits + (if self.open && self.cache_pending {
            1int
        } else {
            0int
        }) <= self.metrics.size_candidates
        &&& self.metrics.partial_candidates + self.jobs_out + (if self.open
            && !self.file.candidate_counted() {
            1int
        } else {
            0int
        }) <= self.metrics.size_candidates
    }

    /// Law: at every step of a run, the counters keep the run-wide bounds.
    pub proof fn law_counters_stay_bounded(&self)
        requires
            self.wf(),
        ensures
            counters_bounded(self.tally()),
    {
    }

    /// A run with all counters at zero, no file open and no job out.
    pub fn new() -> (r: Self)
        ensures
            r.wf(),
            r.tally() == zero_metrics(),
            !r.file_open(),
            r.jobs_out() == 0,
    {
        let (file, _) = FileScan::start(0, false, false);
        ScanRun { metrics: ScanMetrics::new(), file, open: false, cache_pending: false, jobs_out: 0 }
    }

    /// The metrics so far.
    pub fn metrics(&self) -> (m: ScanMetrics)
        ensures
            m == self.tally(),
    {
        self.metrics
    }

    /// Whether the current file is waiting for its cache lookup.
    pub fn awaits_cache(&self) -> (r: bool)
        ensures
            r == (self.file_open() && self.cache_pending()),
    {
        self.open && self.cache_pending
    }

    /// Whether the current file may be handed to the hash workers: it is
    /// open and not yet counted as a partial candidate.
    pub fn may_send_to_worker(&self) -> (r: bool)
        ensures
            r == (self.file_open() && !self.file().candidate_counted()),
    {
        self.open && !self.file.is_candidate_counted()
    }

    /// Whether a file is being scanned.
    pub fn has_open_file(&self) -> (r: bool)
        ensures
            r == self.file_open(),
    {
        self.open
    }

    /// The files out with the hash workers.
    pub fn outstanding_jobs(&self) -> (n: u64)
        ensures
            n == self.jobs_out(),
    {
        self.jobs_out
    }

    /// Starts on a destination file of `size` bytes whose metadata is
    /// stored: it is counted and taken through the size stage. A file that
    /// passes opens a file scan, whose first action is returned; any other
    /// file is finished.
    pub fn begin_file(
        &mut self,
        index: &SensitiveIndex,
        size: u64,
        min_size: u64,
        use_cache: bool,
        use_workers: bool,
    ) -> (r: (SizeFilter, FileAction))
        requires
            old(self).wf(),
            old(self).tally().files_seen < u64::MAX,
        ensures
            final(self).wf(),
            r.0 == size_filter_spec(index.records(), size, min_size),
            final(self).tally() == counted_file(old(self).tally(), r.0),
            final(self).jobs_out() == old(self).jobs_out(),
            final(self).file_open() == (r.0 == SizeFilter::Candidate),
            r.0 != SizeFilter::Candidate ==> r.1 is Finish,
            r.0 == SizeFilter::Candidate ==> {
                &&& final(self).file().size() == size
                &&& final(self).file().uses_workers() == use_workers
                &&& !final(self).file().candidate_counted()
                &&& final(self).file().held() is None
                &&& final(self).cache_pending() == use_cache
                &&& (use_cache ==> r.1 is LookupCache)
                &&& (!use_cache && use_workers ==> r.1 is SendToWorker)
                &&& (!use_cache && !use_workers ==> r.1 is HashPartial)
            },
    {
        let f = self.metrics.begin_file(index, size, min_size);
        if f == SizeFilter::Candidate {
            let (file, action) = FileScan::start(size, use_cache, use_workers);
            self.file = file;
            self.open = true;
            self.cache_pending = use_cache;
            (f, action)
        } else {
            self.open = false;
            self.cache_pending = false;
            (f, FileAction::Finish)
        }
    }

    /// The cache lookup of the current file, as `FileScan::on_cache_lookup`.
    pub fn on_cache_lookup(&mut self, index: &SensitiveIndex, entry: Option<CacheEntry>) -> (a:
        FileAction)
        requires
            old(self).wf(),
            old(self).file_open(),
            old(self).cache_pending(),
            has_room(old(self).tally(), index.records(), 0),
        ensures
            final(self).wf(),
            after_cache_lookup(
                old(self).file(),
                old(self).tally(),
                index.records(),
                entry,
                a,
                final(self).file(),
                final(self).tally(),
            ),
            final(self).file_open(),
            !final(self).cache_pending(),
            final(self).jobs_out() == old(self).jobs_out(),
    {
        let ghost old_file = self.file;
        let ghost old_metrics = self.metrics;
        let a = self.file.on_cache_lookup(&mut self.metrics, index, entry);
        self.cache_pending = false;
        proof {
            if entry is Some {
                let e = entry->0;
                let hit = ScanMetrics { cache_hits: (old_metrics.cache_hits + 1) as u64, ..old_metrics };
                lemma_candidate_credit(
                    hit,
                    index.records(),
                    old_file.size(),
                    crate::hashing::cache_fingerprint(e),
                    old_file.candidate_counted(),
                    a,
                );
            }
        }
        a
    }

    /// Hands the current file to the hash workers; the file scan ends here
    /// and the worker's result is folded in later.
    pub fn send_to_worker(&mut self)
        requires
            old(self).wf(),
            old(self).file_open(),
            !old(self).file().candidate_counted(),
            old(self).jobs_out() < u64::MAX,
        ensures
            final(self).wf(),
            final(self).tally() == old(self).tally(),
            !final(self).file_open(),
            final(self).jobs_out() == old(self).jobs_out() + 1,
    {
        self.jobs_out = self.jobs_out + 1;
        self.open = false;
        self.cache_pending = false;
    }

    /// The partial-hash pass of the current file, as
    /// `FileScan::on_partial_hash`.
    pub fn on_partial_hash(&mut self, index: &SensitiveIndex, partial: FileFingerprint) -> (step:
        FileStep)
        requires
            old(self).wf(),
            old(self).file_open(),
            has_room(old(self).tally(), index.records(), partial.bytes_read),
        ensures
            final(self).wf(),
            after_partial_hash(
                old(self).file(),
                old(self).tally(),
                index.records(),
                partial,
                step,
                final(self).file(),
                final(self).tally(),
            ),
            final(self).file_open(),
            !final(self).cache_pending(),
            final(self).jobs_out() == old(self).jobs_out(),
    {
        let ghost old_file = self.file;
        let ghost old_metrics = self.metrics;
        let ghost p = partial;
        let step = self.file.on_partial_hash(&mut self.metrics, index, partial);
        self.cache_pending = false;
        proof {
            let hashed = ScanMetrics {
                partial_hashed: (old_metrics.partial_hashed + 1) as u64,
                bytes_hashed: (old_metrics.bytes_hashed + p.bytes_read) as u64,
                ..old_metrics
            };
            lemma_candidate_credit(
                hashed,
                index.records(),
                old_file.size(),
                p,
                old_file.candidate_counted(),
                step.action,
            );
        }
        step
    }

    /// The full-hash pass of the current file, as `FileScan::on_full_hash`.
    pub fn on_full_hash(&mut self, index: &SensitiveIndex, full: FileFingerprint) -> (step: FileStep)
        requires
            old(self).wf(),
            old(self).file_open(),
            has_room(old(self).tally(), index.records(), full.bytes_read),
        ensures
            final(self).wf(),
            after_full_hash(
                old(self).file(),
                old(self).tally(),
                index.records(),
                full,
                step,
                final(self).file(),
                final(self).tally(),
            ),
            final(self).file_open(),
            !final(self).cache_pending(),
            final(self).jobs_out() == old(self).jobs_out(),
    {
        let ghost old_file = self.file;
        let ghost old_metrics = self.metrics;
        let ghost f = full;
        let step = self.file.on_full_hash(&mut self.metrics, index, full);
        self.cache_pending = false;
        proof {
            let hashed = ScanMetrics {
                full_hashed: (old_metrics.full_hashed + 1) as u64,
                bytes_hashed: (old_metrics.bytes_hashed + f.bytes_read) as u64,
                ..old_metrics
            };
            lemma_candidate_credit(
                hashed,
                index.records(),
                old_file.size(),
                f,
                old_file.candidate_counted(),
                step.action,
            );
        }
        step
    }

    /// Ends the current file after a read failed; the failure is counted.
    pub fn on_read_error(&mut self) -> (a: FileAction)
        requires
            old(self).wf(),
            old(self).tally().read_errors < u64::MAX,
        ensures
            final(self).wf(),
            a is Finish,
            final(self).tally() == (ScanMetrics {
                read_errors: (old(self).tally().read_errors + 1) as u64,
                ..old(self).tally()
            }),
            !final(self).file_open(),
            final(self).jobs_out() == old(self).jobs_out(),
    {
        self.metrics.record_read_error();
        self.open = false;
        self.cache_pending = false;
        FileAction::Finish
    }

    /// Counts a directory entry or metadata that could not be read, before
    /// any file scan.
    pub fn record_read_error(&mut self)
        requires
            old(self).wf(),
            old(self).tally().read_errors < u64::MAX,
        ensures
            final(self).wf(),
            final(self).tally() == (ScanMetrics {
                read_errors: (old(self).tally().read_errors + 1) as u64,
                ..old(self).tally()
            }),
            final(self).file_open() == old(self).file_open(),
            final(self).file() == old(self).file(),
            final(self).cache_pending() == old(self).cache_pending(),
            final(self).jobs_out() == old(self).jobs_out(),
    {
        self.metrics.record_read_error();
    }

    /// The latest fingerprint of the current file.
    pub fn fingerprint(&self) -> (fp: Option<&FileFingerprint>)
        ensures
            match fp {
                Some(f) => self.file().held() == Some(*f),
                None => self.file().held() is None,
            },
    {
        self.file.fingerprint()
    }

    /// Folds in the result a hash worker sent back for a file of `size`
    /// bytes, as `apply_completed_fingerprint`.
    pub fn apply_worker_result(&mut self, index: &SensitiveIndex, size: u64, worker: &WorkerFingerprint)
        -> (step: FingerprintStep)
        requires
            old(self).wf(),
            old(self).jobs_out() > 0,
            old(self).tally().partial_hashed + worker.partial_hashed <= u64::MAX,
            old(self).tally().full_hashed + worker.full_hashed <= u64::MAX,
            old(self).tally().bytes_hashed + worker.bytes_hashed <= u64::MAX,
            old(self).tally().partial_candidates < u64::MAX,
            old(self).tally().matches_found + index.records().len() <= u64::MAX,
        ensures
            final(self).wf(),
            step is NotCandidate <==> !has_partial_spec(
                index.records(),
                size,
                worker.fingerprint.partial_hash@,
            ),
            step is NeedsFullHash <==> (has_partial_spec(
                index.records(),
                size,
                worker.fingerprint.partial_hash@,
            ) && worker.fingerprint.full_hash is None),
            step matches FingerprintStep::Matches(m) ==> (worker.fingerprint.full_hash matches Some(f)
                && exact_positions(
                index.records(),
                m@,
                |rec| is_full_match(rec, size, worker.fingerprint.partial_hash@, f@),
            )),
            final(self).tally() == applied_metrics(old(self).tally(), *worker, step),
            final(self).jobs_out() == old(self).jobs_out() - 1,
            final(self).file_open() == old(self).file_open(),
            final(self).file() == old(self).file(),
            final(self).cache_pending() == old(self).cache_pending(),
    {
        let step = apply_completed_fingerprint(&mut self.metrics, index, size, worker);
        self.jobs_out = self.jobs_out - 1;
        step
    }

    /// Counts a hash worker's failed read of a file handed to it.
    pub fn worker_failed(&mut self)
        requires
            old(self).wf(),
            old(self).jobs_out() > 0,
            old(self).tally().read_errors < u64::MAX,
        ensures
            final(self).wf(),
            final(self).tally() == (ScanMetrics {
                read_errors: (old(self).tally().read_errors + 1) as u64,
                ..old(self).tally()
            }),
            final(self).jobs_out() == old(self).jobs_out() - 1,
            final(self).file_open() == old(self).file_open(),
            final(self).file() == old(self).file(),
            final(self).cache_pending() == old(self).cache_pending(),
    {
        self.metrics.record_read_error();
        self.jobs_out = self.jobs_out - 1;
    }
}

} // verus!
