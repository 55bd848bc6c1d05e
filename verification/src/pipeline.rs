//! The scan of one destination file that passed the size stage, as a
//! machine that the caller drives: each step says what to read or write
//! next, and each reading is handed back to it.
use vstd::prelude::*;

use crate::hashing::{CacheEntry, FileFingerprint, cache_fingerprint, fingerprint_from_cache};
use crate::index::{
    FingerprintStep, SensitiveIndex, SensitiveRecord, exact_positions, has_partial_spec,
    is_full_match,
};
use crate::scan::{
    ScanMetrics, WorkerFingerprint, WorkerStep, applied_metrics, hash_for_scan_worker,
    lemma_increasing_positions_fit,
};

verus! {

/// What the scan of a file does next.
#[derive(Debug)]
pub enum FileAction {
    /// Nothing more: the file is done.
    Finish,
    /// Look the file up in the fingerprint cache.
    LookupCache,
    /// Hand the file to the hash workers, which finish it.
    SendToWorker,
    /// Read the first `partial_bytes` bytes and hash them.
    HashPartial,
    /// Read the whole file and hash it.
    HashFull,
    /// Report the file as a copy of the sensitive files at these positions.
    Report(Vec<usize>),
}

/// A step after a hashing pass: whether the fingerprint now held is to be
/// stored in the cache first, and what comes next.
#[derive(Debug)]
pub struct FileStep {
    pub store_in_cache: bool,
    pub action: FileAction,
}

/// `a` reports exactly the sensitive files with this size, partial hash and
/// full hash, in index order.
pub open spec fn reports_exactly(
    recs: Seq<SensitiveRecord>,
    size: u64,
    partial: Seq<char>,
    full: Seq<char>,
    a: FileAction,
) -> bool {
    a matches FileAction::Report(m) && exact_positions(
        recs,
        m@,
        |rec: SensitiveRecord| is_full_match(rec, size, partial, full),
    )
}

/// What a file with fingerprint `fp` leads to: nothing when no sensitive
/// file shares its size and partial hash, the full-hash pass when one does
/// and its full hash is unknown, else the report of the sensitive files it
/// matches.
pub open spec fn follows_fingerprint(
    recs: Seq<SensitiveRecord>,
    size: u64,
    fp: FileFingerprint,
    a: FileAction,
) -> bool {
    if !has_partial_spec(recs, size, fp.partial_hash@) {
        a is Finish
    } else {
        match fp.full_hash {
            None => a is HashFull,
            Some(f) => reports_exactly(recs, size, fp.partial_hash@, f@, a),
        }
    }
}

/// What the full pass leads to once the candidates are fixed by the partial
/// hash `partial`: the report of the candidates whose full hash is the new
/// one, or nothing when the pass gave no full hash.
pub open spec fn follows_candidates(
    recs: Seq<SensitiveRecord>,
    size: u64,
    partial: Seq<char>,
    full: FileFingerprint,
    a: FileAction,
) -> bool {
    match full.full_hash {
        Some(f) => reports_exactly(recs, size, partial, f@, a),
        None => a is Finish,
    }
}

/// The number of matches that `a` reports.
pub open spec fn report_count(a: FileAction) -> int {
    match a {
        FileAction::Report(m) => m@.len() as int,
        _ => 0,
    }
}

/// The metrics after a fingerprint has been taken through the partial-hash
/// and full-hash stages: a partial candidate is counted once per file, and
/// every reported match is counted.
pub open spec fn counted_after(
    m: ScanMetrics,
    recs: Seq<SensitiveRecord>,
    size: u64,
    fp: FileFingerprint,
    already_counted: bool,
    a: FileAction,
) -> ScanMetrics {
    ScanMetrics {
        partial_candidates: if has_partial_spec(recs, size, fp.partial_hash@) && !already_counted {
            (m.partial_candidates + 1) as u64
        } else {
            m.partial_candidates
        },
        matches_found: (m.matches_found + report_count(a)) as u64,
        ..m
    }
}

/// Room in the counters for the rest of one file.
pub open spec fn has_room(m: ScanMetrics, recs: Seq<SensitiveRecord>, bytes: u64) -> bool {
    &&& m.cache_hits < u64::MAX
    &&& m.partial_hashed < u64::MAX
    &&& m.full_hashed < u64::MAX
    &&& m.read_errors < u64::MAX
    &&& m.partial_candidates < u64::MAX
    &&& m.matches_found + recs.len() <= u64::MAX
    &&& m.bytes_hashed + bytes <= u64::MAX
}

/// Law: once a destination file's fingerprint is that of a copy of an
/// indexed sensitive file (same size, partial hash and full hash), the scan
/// reports that sensitive file, whichever way the fingerprint was obtained.
pub proof fn law_copy_fingerprint_is_reported(
    recs: Seq<SensitiveRecord>,
    i: int,
    fp: FileFingerprint,
    a: FileAction,
)
    requires
        0 <= i < recs.len(),
        recs[i].partial_hash@ == fp.partial_hash@,
        fp.full_hash matches Some(f) && recs[i].full_hash@ == f@,
        follows_fingerprint(recs, recs[i].size, fp, a),
    ensures
        a matches FileAction::Report(m) && m@.contains(i as usize),
{
    assert(is_full_match(recs[i], recs[i].size, fp.partial_hash@, fp.full_hash->0@));
    assert(has_partial_spec(recs, recs[i].size, fp.partial_hash@)) by {
        assert(crate::index::is_partial_candidate(recs[i], recs[i].size, fp.partial_hash@));
    }
}

/// Law: a cached fingerprint that is complete, or that no sensitive file
/// shares the size and partial hash of, is decided without reading the file:
/// no hashing pass follows and no byte is counted as hashed. This is why an
/// unchanged second scan can hash nothing.
pub proof fn law_complete_cache_hit_reads_nothing(
    m: ScanMetrics,
    recs: Seq<SensitiveRecord>,
    size: u64,
    entry: CacheEntry,
    already_counted: bool,
    a: FileAction,
)
    requires
        entry.full_hash is Some || !has_partial_spec(recs, size, entry.partial_hash@),
        follows_fingerprint(recs, size, cache_fingerprint(entry), a),
    ensures
        !(a is HashFull),
        !(a is HashPartial),
        counted_after(m, recs, size, cache_fingerprint(entry), already_counted, a).bytes_hashed
            == m.bytes_hashed,
        counted_after(m, recs, size, cache_fingerprint(entry), already_counted, a).partial_hashed
            == m.partial_hashed,
        counted_after(m, recs, size, cache_fingerprint(entry), already_counted, a).full_hashed
            == m.full_hashed,
{
}

/// Law: a file hashed by a hash worker and a file hashed by the scan itself
/// count the same and report the same sensitive files in the same order,
/// given the same final fingerprint, the same number of full passes and the
/// same number of bytes read. Threads change how a file is hashed, not what
/// the scan finds or counts.
pub proof fn law_worker_and_own_hashing_agree(
    m: ScanMetrics,
    recs: Seq<SensitiveRecord>,
    size: u64,
    fp: FileFingerprint,
    full_passes: u64,
    bytes: u64,
    own: FileAction,
    step: FingerprintStep,
)
    requires
        has_partial_spec(recs, size, fp.partial_hash@) ==> fp.full_hash is Some,
        follows_fingerprint(recs, size, fp, own),
        step is NotCandidate <==> !has_partial_spec(recs, size, fp.partial_hash@),
        step is NeedsFullHash <==> (has_partial_spec(recs, size, fp.partial_hash@)
            && fp.full_hash is None),
        step matches FingerprintStep::Matches(l) ==> (fp.full_hash matches Some(f) && exact_positions(
            recs,
            l@,
            |rec: SensitiveRecord| is_full_match(rec, size, fp.partial_hash@, f@),
        )),
    ensures
        counted_after(
            ScanMetrics {
                partial_hashed: (m.partial_hashed + 1) as u64,
                full_hashed: (m.full_hashed + full_passes) as u64,
                bytes_hashed: (m.bytes_hashed + bytes) as u64,
                ..m
            },
            recs,
            size,
            fp,
            false,
            own,
        ) == applied_metrics(
            m,
            WorkerFingerprint {
                fingerprint: fp,
                partial_hashed: 1,
                full_hashed: full_passes,
                bytes_hashed: bytes,
            },
            step,
        ),
        own matches FileAction::Report(l1) ==> (step matches FingerprintStep::Matches(l2) && l1@
            == l2@),
{
    if has_partial_spec(recs, size, fp.partial_hash@) {
        let f = fp.full_hash->0;
        let pred = |rec: SensitiveRecord| is_full_match(rec, size, fp.partial_hash@, f@);
        let l1 = own->Report_0;
        let l2 = step->Matches_0;
        crate::index::law_match_list_is_unique(recs, l1@, l2@, pred);
    }
}

/// Law: the hash stages leave the size-stage accounting of the scan as it
/// was: every file seen still went exactly one way at the size stage.
pub proof fn law_hash_stages_keep_filters_balanced(
    m: ScanMetrics,
    recs: Seq<SensitiveRecord>,
    size: u64,
    fp: FileFingerprint,
    already_counted: bool,
    a: FileAction,
)
    requires
        m.filters_balanced(),
    ensures
        counted_after(m, recs, size, fp, already_counted, a).filters_balanced(),
{
}

/// What a cache lookup does to a file scan `s` and the metrics `m`,
/// leading to `s2`, `m2` and the action `a`: without an entry nothing
/// changes and the file goes on to hashing; with one, a cache hit is counted
/// and the cached fingerprint is taken through the hash stages.
pub open spec fn after_cache_lookup(
    s: FileScan,
    m: ScanMetrics,
    recs: Seq<SensitiveRecord>,
    entry: Option<CacheEntry>,
    a: FileAction,
    s2: FileScan,
    m2: ScanMetrics,
) -> bool {
    &&& s2.size() == s.size()
    &&& s2.uses_workers() == s.uses_workers()
    &&& match entry {
        None => {
            &&& m2 == m
            &&& s2 == s
            &&& (s.uses_workers() ==> a is SendToWorker)
            &&& (!s.uses_workers() ==> a is HashPartial)
        },
        Some(e) => {
            let fp = cache_fingerprint(e);
            let hit = ScanMetrics { cache_hits: (m.cache_hits + 1) as u64, ..m };
            &&& follows_fingerprint(recs, s.size(), fp, a)
            &&& m2 == counted_after(hit, recs, s.size(), fp, s.candidate_counted(), a)
            &&& s2.held() == Some(fp)
            &&& s2.candidate_counted() == (s.candidate_counted() || has_partial_spec(
                recs,
                s.size(),
                fp.partial_hash@,
            ))
        },
    }
}

/// What the partial-hash pass does: the pass is counted; when the full
/// hash is needed that pass comes next and nothing is stored, else the
/// fingerprint is stored and taken through the hash stages.
pub open spec fn after_partial_hash(
    s: FileScan,
    m: ScanMetrics,
    recs: Seq<SensitiveRecord>,
    partial: FileFingerprint,
    step: FileStep,
    s2: FileScan,
    m2: ScanMetrics,
) -> bool {
    let hashed = ScanMetrics {
        partial_hashed: (m.partial_hashed + 1) as u64,
        bytes_hashed: (m.bytes_hashed + partial.bytes_read) as u64,
        ..m
    };
    &&& s2.size() == s.size()
    &&& s2.uses_workers() == s.uses_workers()
    &&& if has_partial_spec(recs, s.size(), partial.partial_hash@) && partial.full_hash is None {
        &&& !step.store_in_cache
        &&& step.action is HashFull
        &&& m2 == hashed
        &&& s2 == s
    } else {
        &&& step.store_in_cache
        &&& follows_fingerprint(recs, s.size(), partial, step.action)
        &&& m2 == counted_after(hashed, recs, s.size(), partial, s.candidate_counted(), step.action)
        &&& s2.held() == Some(partial)
        &&& s2.candidate_counted() == (s.candidate_counted() || has_partial_spec(
            recs,
            s.size(),
            partial.partial_hash@,
        ))
    }
}

/// What the full-hash pass does: the pass is counted and the new
/// fingerprint is stored. When a cached fingerprint had already made the
/// file a partial candidate, the sensitive files sharing that cached partial
/// hash are the candidates and those whose full hash is the new one are
/// reported; otherwise the new fingerprint is taken through the hash stages.
pub open spec fn after_full_hash(
    s: FileScan,
    m: ScanMetrics,
    recs: Seq<SensitiveRecord>,
    full: FileFingerprint,
    step: FileStep,
    s2: FileScan,
    m2: ScanMetrics,
) -> bool {
    let hashed = ScanMetrics {
        full_hashed: (m.full_hashed + 1) as u64,
        bytes_hashed: (m.bytes_hashed + full.bytes_read) as u64,
        ..m
    };
    &&& s2.size() == s.size()
    &&& s2.uses_workers() == s.uses_workers()
    &&& step.store_in_cache
    &&& s2.held() == Some(full)
    &&& match s.held() {
        None => {
            &&& follows_fingerprint(recs, s.size(), full, step.action)
            &&& m2 == counted_after(hashed, recs, s.size(), full, s.candidate_counted(), step.action)
            &&& s2.candidate_counted() == (s.candidate_counted() || has_partial_spec(
                recs,
                s.size(),
                full.partial_hash@,
            ))
        },
        Some(prev) => {
            &&& follows_candidates(recs, s.size(), prev.partial_hash@, full, step.action)
            &&& m2 == (ScanMetrics {
                matches_found: (hashed.matches_found + report_count(step.action)) as u64,
                ..hashed
            })
            &&& s2.candidate_counted() == s.candidate_counted()
        },
    }
}

/// The scan of one destination file after the size stage.
pub struct FileScan {
    size: u64,
    use_workers: bool,
    candidate_counted: bool,
    held: Option<FileFingerprint>,
}

impl FileScan {
    /// The size of the file.
    pub closed spec fn size(&self) -> u64 {
        self.size
    }

    /// Whether hash workers do the hashing.
    pub closed spec fn uses_workers(&self) -> bool {
        self.use_workers
    }

    /// Whether the file has already been counted as a partial candidate.
    pub closed spec fn candidate_counted(&self) -> bool {
        self.candidate_counted
    }

    /// The latest fingerprint of the file.
    pub closed spec fn held(&self) -> Option<FileFingerprint> {
        self.held
    }

    /// Starts on a file of `size` bytes: the cache is consulted first when
    /// it is in use; otherwise the file goes to the hash workers when they
    /// run, else its partial hash is made here.
    pub fn start(size: u64, use_cache: bool, use_workers: bool) -> (r: (FileScan, FileAction))
        ensures
            r.0.size() == size,
            r.0.uses_workers() == use_workers,
            !r.0.candidate_counted(),
            r.0.held() is None,
            use_cache ==> r.1 is LookupCache,
            !use_cache && use_workers ==> r.1 is SendToWorker,
            !use_cache && !use_workers ==> r.1 is HashPartial,
    {
        let scan = FileScan { size, use_workers, candidate_counted: false, held: None };
        let action = if use_cache {
            FileAction::LookupCache
        } else if use_workers {
            FileAction::SendToWorker
        } else {
            FileAction::HashPartial
        };
        (scan, action)
    }

    /// Whether the file has already been counted as a partial candidate.
    pub fn is_candidate_counted(&self) -> (r: bool)
        ensures
            r == self.candidate_counted(),
    {
        self.candidate_counted
    }

    /// The latest fingerprint of the file, to store in the cache or report.
    pub fn fingerprint(&self) -> (fp: Option<&FileFingerprint>)
        ensures
            match fp {
                Some(f) => self.held() == Some(*f),
                None => self.held() is None,
            },
    {
        match &self.held {
            Some(f) => Some(f),
            None => None,
        }
    }

    /// Takes a fingerprint through the partial-hash and full-hash stages.
    fn take_fingerprint(&mut self, metrics: &mut ScanMetrics, index: &SensitiveIndex, fp: FileFingerprint)
        -> (a: FileAction)
        requires
            old(metrics).partial_candidates < u64::MAX,
            old(metrics).matches_found + index.records().len() <= u64::MAX,
        ensures
            follows_fingerprint(index.records(), old(self).size(), fp, a),
            *final(metrics) == counted_after(
                *old(metrics),
                index.records(),
                old(self).size(),
                fp,
                old(self).candidate_counted(),
                a,
            ),
            final(self).held() == Some(fp),
            final(self).size() == old(self).size(),
            final(self).uses_workers() == old(self).uses_workers(),
            final(self).candidate_counted() == (old(self).candidate_counted() || has_partial_spec(
                index.records(),
                old(self).size(),
                fp.partial_hash@,
            )),
    {
        let step = index.classify_fingerprint(self.size, &fp);
        let action = match step {
            FingerprintStep::NotCandidate => FileAction::Finish,
            FingerprintStep::NeedsFullHash => {
                if !self.candidate_counted {
                    metrics.partial_candidates = metrics.partial_candidates + 1;
                    self.candidate_counted = true;
                }
                FileAction::HashFull
            },
            FingerprintStep::Matches(m) => {
                if !self.candidate_counted {
                    metrics.partial_candidates = metrics.partial_candidates + 1;
                    self.candidate_counted = true;
                }
                proof {
                    lemma_increasing_positions_fit(m@, index.records().len() as int);
                }
                metrics.matches_found = metrics.matches_found + m.len() as u64;
                FileAction::Report(m)
            },
        };
        self.held = Some(fp);
        action
    }

    /// Continues after the cache lookup: a cached fingerprint is counted as
    /// a cache hit and taken through the hash stages; without one the file
    /// goes to the hash workers or has its partial hash made here.
    pub fn on_cache_lookup(
        &mut self,
        metrics: &mut ScanMetrics,
        index: &SensitiveIndex,
        entry: Option<CacheEntry>,
    ) -> (a: FileAction)
        requires
            has_room(*old(metrics), index.records(), 0),
        ensures
            after_cache_lookup(
                *old(self),
                *old(metrics),
                index.records(),
                entry,
                a,
                *final(self),
                *final(metrics),
            ),
    {
        match entry {
            None => {
                if self.use_workers {
                    FileAction::SendToWorker
                } else {
                    FileAction::HashPartial
                }
            },
            Some(e) => {
                metrics.record_cache_hit();
                let fp = fingerprint_from_cache(e);
                self.take_fingerprint(metrics, index, fp)
            },
        }
    }

    /// Continues after the partial-hash pass: the pass is counted; when the
    /// full hash is needed that pass comes next and nothing is stored, else
    /// the fingerprint is stored and taken through the hash stages.
    pub fn on_partial_hash(
        &mut self,
        metrics: &mut ScanMetrics,
        index: &SensitiveIndex,
        partial: FileFingerprint,
    ) -> (step: FileStep)
        requires
            has_room(*old(metrics), index.records(), partial.bytes_read),
        ensures
            after_partial_hash(
                *old(self),
                *old(metrics),
                index.records(),
                partial,
                step,
                *final(self),
                *final(metrics),
            ),
    {
        metrics.record_partial_hash(partial.bytes_read);
        match hash_for_scan_worker(self.size, index, partial) {
            WorkerStep::HashFull(_) => FileStep { store_in_cache: false, action: FileAction::HashFull },
            WorkerStep::Finished(w) => {
                let action = self.take_fingerprint(metrics, index, w.fingerprint);
                FileStep { store_in_cache: true, action }
            },
        }
    }

    /// Continues after the full-hash pass, which is counted; the new
    /// fingerprint is stored. When a cached fingerprint had already made the
    /// file a partial candidate, the sensitive files that share that cached
    /// partial hash are the candidates, and those whose full hash is the new
    /// one are reported. Otherwise the new fingerprint is taken through the
    /// hash stages.
    pub fn on_full_hash(&mut self, metrics: &mut ScanMetrics, index: &SensitiveIndex, full: FileFingerprint)
        -> (step: FileStep)
        requires
            has_room(*old(metrics), index.records(), full.bytes_read),
        ensures
            after_full_hash(
                *old(self),
                *old(metrics),
                index.records(),
                full,
                step,
                *final(self),
                *final(metrics),
            ),
    {
        metrics.record_full_hash(full.bytes_read);
        let key: Option<String> = match &self.held {
            Some(prev) => Some(prev.partial_hash.clone()),
            None => None,
        };
        match key {
            None => {
                let action = self.take_fingerprint(metrics, index, full);
                FileStep { store_in_cache: true, action }
            },
            Some(partial) => {
                let action = match &full.full_hash {
                    Some(f) => {
                        let m = index.matching_records(self.size, &partial, f);
                        proof {
                            lemma_increasing_positions_fit(m@, index.records().len() as int);
                        }
                        metrics.matches_found = metrics.matches_found + m.len() as u64;
                        FileAction::Report(m)
                    },
                    None => FileAction::Finish,
                };
                self.held = Some(full);
                FileStep { store_in_cache: true, action }
            },
        }
    }

    /// Ends the file after a read failed; the failure is counted.
    pub fn on_read_error(&mut self, metrics: &mut ScanMetrics) -> (a: FileAction)
        requires
            old(metrics).read_errors < u64::MAX,
        ensures
            a is Finish,
            *final(metrics) == (ScanMetrics {
                read_errors: (old(metrics).read_errors + 1) as u64,
                ..*old(metrics)
            }),
            *final(self) == *old(self),
    {
        metrics.record_read_error();
        FileAction::Finish
    }
}

} // verus!
