//! The index of sensitive files: every indexed file with its size, partial
//! hash and full hash, looked up by size first.
use vstd::prelude::*;

use std::collections::HashMap;

use crate::hashing::{FileFingerprint, full_digest, partial_digest};

verus! {

broadcast use vstd::std_specs::hash::group_hash_axioms;

/// One indexed sensitive file.
#[derive(Debug)]
pub struct SensitiveRecord {
    /// Its path relative to the sensitive source root.
    pub source_rel: String,
    pub size: u64,
    pub partial_hash: String,
    pub full_hash: String,
}

/// Whether `rec` has the given size and partial hash.
pub open spec fn is_partial_candidate(rec: SensitiveRecord, size: u64, partial: Seq<char>) -> bool {
    rec.size == size && rec.partial_hash@ == partial
}

/// Whether `rec` has the given size, partial hash and full hash.
pub open spec fn is_full_match(
    rec: SensitiveRecord,
    size: u64,
    partial: Seq<char>,
    full: Seq<char>,
) -> bool {
    is_partial_candidate(rec, size, partial) && rec.full_hash@ == full
}

/// Whether some record has the given size.
pub open spec fn has_size_spec(recs: Seq<SensitiveRecord>, size: u64) -> bool {
    exists|i: int| 0 <= i < recs.len() && (#[trigger] recs[i]).size == size
}

/// Whether some record has the given size and partial hash.
pub open spec fn has_partial_spec(recs: Seq<SensitiveRecord>, size: u64, partial: Seq<char>) -> bool {
    exists|i: int| 0 <= i < recs.len() && is_partial_candidate(#[trigger] recs[i], size, partial)
}

/// `result` lists, in increasing order, exactly the positions of the
/// records that satisfy `pred`.
pub open spec fn exact_positions(
    recs: Seq<SensitiveRecord>,
    result: Seq<usize>,
    pred: spec_fn(SensitiveRecord) -> bool,
) -> bool {
    &&& forall|k: int|
        0 <= k < result.len() ==> #[trigger] result[k] < recs.len() && pred(recs[result[k] as int])
    &&& forall|k1: int, k2: int|
        0 <= k1 < k2 < result.len() ==> #[trigger] result[k1] < #[trigger] result[k2]
    &&& forall|j: int| 0 <= j < recs.len() && pred(#[trigger] recs[j]) ==> result.contains(j as usize)
}

/// Whether `rec` has the given size and partial hash and, when `full` is
/// given, that full hash.
pub open spec fn wanted(rec: SensitiveRecord, size: u64, partial: Seq<char>, full: Option<&String>) -> bool {
    is_partial_candidate(rec, size, partial) && (full matches Some(f) ==> rec.full_hash@ == f@)
}

/// The first stage of the scan: the size of a destination file.
#[derive(Debug, Clone, Copy, PartialEq, Eq, Structural)]
pub enum SizeFilter {
    /// Smaller than the minimum size of interest.
    BelowMinimum,
    /// No sensitive file has this size.
    NotIndexedSize,
    /// Some sensitive file has this size.
    Candidate,
}

pub open spec fn size_filter_spec(recs: Seq<SensitiveRecord>, size: u64, min_size: u64) -> SizeFilter {
    if size < min_size {
        SizeFilter::BelowMinimum
    } else if !has_size_spec(recs, size) {
        SizeFilter::NotIndexedSize
    } else {
        SizeFilter::Candidate
    }
}

/// The later stages of the scan: what a destination file's fingerprint
/// leads to.
#[derive(Debug)]
pub enum FingerprintStep {
    /// No sensitive file has this size and partial hash.
    NotCandidate,
    /// Some do, and the full hash is needed to decide.
    NeedsFullHash,
    /// The positions of the sensitive files whose content the file has.
    Matches(Vec<usize>),
}

/// The positions, in increasing order, of the records of the given size
/// among the first `n`.
pub open spec fn size_positions(recs: Seq<SensitiveRecord>, size: u64, n: int) -> Seq<usize>
    decreases n,
{
    if n <= 0 {
        Seq::empty()
    } else if recs[n - 1].size == size {
        size_positions(recs, size, n - 1).push((n - 1) as usize)
    } else {
        size_positions(recs, size, n - 1)
    }
}

proof fn lemma_size_positions(recs: Seq<SensitiveRecord>, size: u64, n: int)
    requires
        0 <= n <= recs.len(),
        recs.len() <= usize::MAX,
    ensures
        ({
            let r = size_positions(recs, size, n);
            &&& r.len() <= n
            &&& forall|k: int| 0 <= k < r.len() ==> #[trigger] r[k] < n && recs[r[k] as int].size == size
            &&& forall|k1: int, k2: int| 0 <= k1 < k2 < r.len() ==> #[trigger] r[k1] < #[trigger] r[k2]
            &&& forall|j: int| 0 <= j < n && (#[trigger] recs[j]).size == size ==> r.contains(j as usize)
        }),
    decreases n,
{
    if n > 0 {
        lemma_size_positions(recs, size, n - 1);
        let p = size_positions(recs, size, n - 1);
        let r = size_positions(recs, size, n);
        if recs[n - 1].size == size {
            assert(r == p.push((n - 1) as usize));
            assert forall|j: int| 0 <= j < n && (#[trigger] recs[j]).size == size implies r.contains(
                j as usize,
            ) by {
                if j == n - 1 {
                    assert(r[r.len() - 1] == j as usize);
                } else {
                    let k = choose|k: int| 0 <= k < p.len() && p[k] == j as usize;
                    assert(r[k] == j as usize);
                }
            }
        }
    }
}

/// The sensitive files to look for, grouped by size.
pub struct SensitiveIndex {
    records: Vec<SensitiveRecord>,
    by_size: HashMap<u64, Vec<usize>>,
    partial_bytes: u64,
    source_root: String,
}

impl SensitiveIndex {
    #[verifier::type_invariant]
    spec fn grouped(&self) -> bool {
        &&& self.records@.len() <= usize::MAX
        &&& forall|s: u64| #[trigger]
            self.by_size@.contains_key(s) <==> size_positions(
                self.records@,
                s,
                self.records@.len() as int,
            ).len() > 0
        &&& forall|s: u64| #[trigger]
            self.by_size@.contains_key(s) ==> self.by_size@[s]@ == size_positions(
                self.records@,
                s,
                self.records@.len() as int,
            )
    }

    /// The indexed files, in the order they were given.
    pub closed spec fn records(&self) -> Seq<SensitiveRecord> {
        self.records@
    }

    /// The partial length that the partial hashes were made with.
    pub closed spec fn partial_bytes_spec(&self) -> u64 {
        self.partial_bytes
    }

    /// The sensitive source root that the record paths are relative to.
    pub closed spec fn source_root_spec(&self) -> Seq<char> {
        self.source_root@
    }

    /// An index of `records`, hashed with partial length `partial_bytes`,
    /// whose paths are relative to `source_root`.
    pub fn new(records: Vec<SensitiveRecord>, partial_bytes: u64, source_root: String) -> (idx: Self)
        ensures
            idx.records() == records@,
            idx.partial_bytes_spec() == partial_bytes,
            idx.source_root_spec() == source_root@,
    {
        let mut by_size: HashMap<u64, Vec<usize>> = HashMap::new();
        let n = records.len();
        let ghost recs = records@;
        for i in 0..n
            invariant
                n == records@.len(),
                recs == records@,
                forall|s: u64| #[trigger]
                    by_size@.contains_key(s) <==> size_positions(recs, s, i as int).len() > 0,
                forall|s: u64| #[trigger]
                    by_size@.contains_key(s) ==> by_size@[s]@ == size_positions(recs, s, i as int),
        {
            let size = records[i].size;
            let ghost old_map = by_size@;
            let removed = by_size.remove(&size);
            let mut bucket = match removed {
                Some(b) => b,
                None => Vec::new(),
            };
            proof {
                if !old_map.contains_key(size) {
                    assert(size_positions(recs, size, i as int) =~= Seq::<usize>::empty());
                }
            }
            let ghost before = bucket@;
            assert(before == size_positions(recs, size, i as int));
            bucket.push(i);
            by_size.insert(size, bucket);
            proof {
                assert forall|s: u64| #[trigger]
                    by_size@.contains_key(s) <==> size_positions(recs, s, i + 1).len() > 0 by {
                    if s != size {
                        assert(size_positions(recs, s, i + 1) == size_positions(recs, s, i as int));
                    }
                }
                assert forall|s: u64| #[trigger]
                    by_size@.contains_key(s) implies by_size@[s]@ == size_positions(
                    recs,
                    s,
                    i + 1,
                ) by {
                    if s != size {
                        assert(size_positions(recs, s, i + 1) == size_positions(recs, s, i as int));
                    }
                }
            }
        }
        SensitiveIndex { records, by_size, partial_bytes, source_root }
    }

    /// The number of indexed files.
    pub fn len(&self) -> (n: usize)
        ensures
            n == self.records().len(),
    {
        self.records.len()
    }

    /// Whether no file is indexed.
    pub fn is_empty(&self) -> (e: bool)
        ensures
            e == (self.records().len() == 0),
    {
        self.records.len() == 0
    }

    /// The indexed file at position `i`.
    pub fn record(&self, i: usize) -> (r: &SensitiveRecord)
        requires
            i < self.records().len(),
        ensures
            *r == self.records()[i as int],
    {
        &self.records[i]
    }

    /// The partial length that the partial hashes were made with.
    pub fn partial_bytes(&self) -> (n: u64)
        ensures
            n == self.partial_bytes_spec(),
    {
        self.partial_bytes
    }

    /// The sensitive source root.
    pub fn source_root(&self) -> (r: &String)
        ensures
            r@ == self.source_root_spec(),
    {
        &self.source_root
    }

    /// Whether some indexed file has this size.
    pub fn has_size(&self, size: u64) -> (r: bool)
        ensures
            r == has_size_spec(self.records(), size),
    {
        proof {
            use_type_invariant(self);
            lemma_size_positions(self.records@, size, self.records@.len() as int);
            let p = size_positions(self.records@, size, self.records@.len() as int);
            if p.len() > 0 {
                assert(self.records@[p[0] as int].size == size);
            }
        }
        self.by_size.contains_key(&size)
    }

    /// The size stage of the scan for a destination file of `size` bytes.
    pub fn classify_size(&self, size: u64, min_size: u64) -> (r: SizeFilter)
        ensures
            r == size_filter_spec(self.records(), size, min_size),
    {
        if size < min_size {
            SizeFilter::BelowMinimum
        } else if !self.has_size(size) {
            SizeFilter::NotIndexedSize
        } else {
            SizeFilter::Candidate
        }
    }

    /// The positions of the records with this size and partial hash and,
    /// when `full` is given, this full hash.
    fn positions(&self, size: u64, partial: &String, full: Option<&String>) -> (r: Vec<usize>)
        ensures
            exact_positions(
                self.records(),
                r@,
                |rec: SensitiveRecord| wanted(rec, size, partial@, full),
            ),
    {
        proof {
            use_type_invariant(self);
        }
        let ghost recs = self.records@;
        let ghost n = recs.len() as int;
        proof {
            lemma_size_positions(recs, size, n);
        }
        let mut out: Vec<usize> = Vec::new();
        match self.by_size.get(&size) {
            None => {
                assert forall|j: int| 0 <= j < n && wanted(#[trigger] recs[j], size, partial@, full) implies out@.contains(
                    j as usize,
                ) by {
                    assert(size_positions(recs, size, n).contains(j as usize));
                }
            },
            Some(bucket) => {
                let ghost b = bucket@;
                assert(b == size_positions(recs, size, n));
                let blen = bucket.len();
                for k in 0..blen
                    invariant
                        blen == b.len(),
                        b == bucket@,
                        b == size_positions(recs, size, n),
                        recs == self.records@,
                        n == recs.len(),
                        forall|k1: int| 0 <= k1 < b.len() ==> #[trigger] b[k1] < n && recs[b[k1] as int].size == size,
                        forall|k1: int, k2: int| 0 <= k1 < k2 < b.len() ==> #[trigger] b[k1] < #[trigger] b[k2],
                        forall|t: int|
                            0 <= t < out@.len() ==> #[trigger] out@[t] < n && wanted(recs[out@[t] as int], size, partial@, full),
                        forall|t1: int, t2: int|
                            0 <= t1 < t2 < out@.len() ==> #[trigger] out@[t1] < #[trigger] out@[t2],
                        k == 0 ==> out@.len() == 0,
                        k > 0 ==> forall|t: int| 0 <= t < out@.len() ==> #[trigger] out@[t] <= b[k - 1],
                        forall|k2: int|
                            0 <= k2 < k && wanted(recs[#[trigger] b[k2] as int], size, partial@, full) ==> out@.contains(
                                b[k2],
                            ),
                {
                    let j = bucket[k];
                    assert(b[k as int] < n);
                    let rec = &self.records[j];
                    let full_ok = match full {
                        Some(f) => rec.full_hash == *f,
                        None => true,
                    };
                    let ghost full_pred = (full matches Some(f) ==> rec.full_hash@ == f@);
                    assert(full_ok == full_pred);
                    assert(recs[j as int].size == size);
                    if rec.partial_hash == *partial && full_ok {
                        assert(wanted(recs[j as int], size, partial@, full));
                        proof {
                            if k > 0 {
                                assert(b[k - 1] < b[k as int]);
                            }
                        }
                        let ghost old_out = out@;
                        out.push(j);
                        proof {
                            assert(out@[out@.len() - 1] == j);
                            assert forall|k2: int|
                                0 <= k2 < k + 1 && wanted(
                                    recs[#[trigger] b[k2] as int], size, partial@, full,
                                ) implies out@.contains(b[k2]) by {
                                if k2 < k {
                                    assert(old_out.contains(b[k2]));
                                    let t = choose|t: int| 0 <= t < old_out.len() && old_out[t] == b[k2];
                                    assert(out@[t] == b[k2]);
                                } else {
                                    assert(out@[out@.len() - 1] == b[k2]);
                                }
                            }
                        }
                    } else {
                        assert(!wanted(recs[j as int], size, partial@, full));
                        proof {
                            if k > 0 {
                                assert(b[k - 1] < b[k as int]);
                            }
                        }
                    }
                }
                assert forall|j: int| 0 <= j < n && wanted(#[trigger] recs[j], size, partial@, full) implies out@.contains(
                    j as usize,
                ) by {
                    assert(b.contains(j as usize));
                    let k2 = choose|k2: int| 0 <= k2 < b.len() && b[k2] == j as usize;
                    assert(wanted(recs[b[k2] as int], size, partial@, full));
                }
            },
        }
        out
    }

    /// Whether some indexed file has this size and partial hash.
    pub fn has_partial_candidates(&self, size: u64, partial: &String) -> (r: bool)
        ensures
            r == has_partial_spec(self.records(), size, partial@),
    {
        let found = self.positions(size, partial, None);
        proof {
            if found@.len() > 0 {
                assert(found@[0] < self.records().len());
            }
            if has_partial_spec(self.records(), size, partial@) {
                let i = choose|i: int|
                    0 <= i < self.records().len() && is_partial_candidate(
                        #[trigger] self.records()[i],
                        size,
                        partial@,
                    );
                assert(found@.contains(i as usize));
            }
        }
        found.len() > 0
    }

    /// The positions, in increasing order, of exactly the indexed files with
    /// this size, partial hash and full hash.
    pub fn matching_records(&self, size: u64, partial: &String, full: &String) -> (r: Vec<usize>)
        ensures
            exact_positions(
                self.records(),
                r@,
                |rec: SensitiveRecord| is_full_match(rec, size, partial@, full@),
            ),
    {
        let r = self.positions(size, partial, Some(full));
        r
    }

    /// The stages of the scan after the size: the partial hash, then the
    /// full hash, then the sensitive files whose content the file has.
    pub fn classify_fingerprint(&self, size: u64, fp: &FileFingerprint) -> (r: FingerprintStep)
        ensures
            r is NotCandidate <==> !has_partial_spec(self.records(), size, fp.partial_hash@),
            r is NeedsFullHash <==> (has_partial_spec(self.records(), size, fp.partial_hash@)
                && fp.full_hash is None),
            r matches FingerprintStep::Matches(m) ==> (fp.full_hash matches Some(f) && exact_positions(
                self.records(),
                m@,
                |rec: SensitiveRecord| is_full_match(rec, size, fp.partial_hash@, f@),
            )),
    {
        if !self.has_partial_candidates(size, &fp.partial_hash) {
            return FingerprintStep::NotCandidate;
        }
        match &fp.full_hash {
            None => FingerprintStep::NeedsFullHash,
            Some(full) => FingerprintStep::Matches(self.matching_records(size, &fp.partial_hash, full)),
        }
    }
}

proof fn lemma_increasing_same_elements(a: Seq<usize>, b: Seq<usize>)
    requires
        forall|k1: int, k2: int| 0 <= k1 < k2 < a.len() ==> #[trigger] a[k1] < #[trigger] a[k2],
        forall|k1: int, k2: int| 0 <= k1 < k2 < b.len() ==> #[trigger] b[k1] < #[trigger] b[k2],
        forall|x: usize| a.contains(x) <==> b.contains(x),
    ensures
        a == b,
    decreases a.len() + b.len(),
{
    if a.len() == 0 {
        if b.len() > 0 {
            assert(b.contains(b[0]));
        }
        assert(a =~= b);
    } else if b.len() == 0 {
        assert(a.contains(a[0]));
    } else {
        let la = a.last();
        let lb = b.last();
        assert(a.contains(la));
        assert(b.contains(lb));
        let ia = choose|i: int| 0 <= i < b.len() && b[i] == la;
        let ib = choose|i: int| 0 <= i < a.len() && a[i] == lb;
        if ia < b.len() - 1 {
            assert(b[ia] < b[b.len() - 1]);
        }
        if ib < a.len() - 1 {
            assert(a[ib] < a[a.len() - 1]);
        }
        assert(la == lb);
        let a2 = a.drop_last();
        let b2 = b.drop_last();
        assert forall|x: usize| a2.contains(x) <==> b2.contains(x) by {
            if a2.contains(x) {
                let i = choose|i: int| 0 <= i < a2.len() && a2[i] == x;
                assert(a[i] < a[a.len() - 1]);
                assert(b.contains(x));
                let j = choose|j: int| 0 <= j < b.len() && b[j] == x;
                assert(j != b.len() - 1);
                assert(b2[j] == x);
            }
            if b2.contains(x) {
                let j = choose|j: int| 0 <= j < b2.len() && b2[j] == x;
                assert(b[j] < b[b.len() - 1]);
                assert(a.contains(x));
                let i = choose|i: int| 0 <= i < a.len() && a[i] == x;
                assert(i != a.len() - 1);
                assert(a2[i] == x);
            }
        }
        lemma_increasing_same_elements(a2, b2);
        assert(a =~= a2.push(la));
        assert(b =~= b2.push(lb));
    }
}

/// Law: the list of positions that a match lookup reports is determined by
/// the records and the fingerprint alone, so every path of the scan (the
/// scan's own hashing, the cache, the hash workers) reports the same
/// sensitive files in the same order.
pub proof fn law_match_list_is_unique(
    recs: Seq<SensitiveRecord>,
    a: Seq<usize>,
    b: Seq<usize>,
    pred: spec_fn(SensitiveRecord) -> bool,
)
    requires
        exact_positions(recs, a, pred),
        exact_positions(recs, b, pred),
    ensures
        a == b,
{
    assert forall|x: usize| a.contains(x) <==> b.contains(x) by {
        if a.contains(x) {
            let k = choose|k: int| 0 <= k < a.len() && a[k] == x;
            assert(a[k] < recs.len() && pred(recs[a[k] as int]));
            assert(pred(recs[x as int]));
        }
        if b.contains(x) {
            let k = choose|k: int| 0 <= k < b.len() && b[k] == x;
            assert(b[k] < recs.len() && pred(recs[b[k] as int]));
            assert(pred(recs[x as int]));
        }
    }
    lemma_increasing_same_elements(a, b);
}

/// Law: a destination file with exactly the content of an indexed sensitive
/// file, and at least the minimum size, passes the size stage and the
/// partial-hash stage and matches that file at the full-hash stage, so it is
/// reported however it was renamed or moved.
pub proof fn law_copied_content_passes_every_stage(
    recs: Seq<SensitiveRecord>,
    i: int,
    content: Seq<u8>,
    partial_bytes: nat,
    min_size: u64,
)
    requires
        0 <= i < recs.len(),
        recs[i].size == content.len(),
        recs[i].partial_hash@ == partial_digest(content, partial_bytes),
        recs[i].full_hash@ == full_digest(content),
        min_size <= content.len(),
    ensures
        size_filter_spec(recs, content.len() as u64, min_size) == SizeFilter::Candidate,
        has_partial_spec(recs, content.len() as u64, partial_digest(content, partial_bytes)),
        is_full_match(
            recs[i],
            content.len() as u64,
            partial_digest(content, partial_bytes),
            full_digest(content),
        ),
{
    assert(is_partial_candidate(recs[i], content.len() as u64, partial_digest(content, partial_bytes)));
}

} // verus!
