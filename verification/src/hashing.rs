//! BLAKE3 fingerprints of file content: the partial hash of a prefix, the
//! full hash of everything, and the fingerprint records built from them.
use vstd::prelude::*;

use vstd::slice::slice_subrange;

verus! {

#[verifier::external_type_specification]
#[verifier::external_body]
pub struct ExBlake3Hasher(blake3::Hasher);

/// The bytes that a `blake3::Hasher` has been fed since it was created.
pub uninterp spec fn blake3_hasher_input(hasher: blake3::Hasher) -> Seq<u8>;

/// The BLAKE3 hash of `input`, written as lowercase hexadecimal.
pub uninterp spec fn blake3_hex(input: Seq<u8>) -> Seq<char>;

/// Whether `c` is a lowercase hexadecimal digit.
pub open spec fn is_lower_hex(c: char) -> bool {
    (48 <= c as int <= 57) || (97 <= c as int <= 102)
}

/// The shape of a written hash: 64 lowercase hexadecimal digits.
pub open spec fn is_hex_digest(s: Seq<char>) -> bool {
    s.len() == 64 && forall|i: int| 0 <= i < s.len() ==> is_lower_hex(#[trigger] s[i])
}

/// `blake3::Hasher::new`: a hasher for the regular (unkeyed) hash function
/// that has been fed nothing.
#[verifier::external_body]
fn blake3_new() -> (hasher: blake3::Hasher)
    ensures
        blake3_hasher_input(hasher) == Seq::<u8>::empty(),
{
    blake3::Hasher::new()
}

/// `blake3::Hasher::update`: feeds `data` after what the hasher has seen.
#[verifier::external_body]
fn blake3_update(hasher: &mut blake3::Hasher, data: &[u8])
    ensures
        blake3_hasher_input(*final(hasher)) == blake3_hasher_input(*old(hasher)) + data@,
{
    hasher.update(data);
}

/// `blake3::Hasher::finalize` followed by `Hash::to_hex`: the hash of all
/// that the hasher has been fed, as 64 lowercase hexadecimal digits.
#[verifier::external_body]
fn blake3_finalize_hex(hasher: &blake3::Hasher) -> (hex: String)
    ensures
        hex@ == blake3_hex(blake3_hasher_input(*hasher)),
        hex@.len() == 64,
        forall|i: int| 0 <= i < hex@.len() ==> is_lower_hex(#[trigger] hex@[i]),
{
    hasher.finalize().to_hex().to_string()
}

/// The first `n` bytes of `content`, or all of it when it is shorter.
pub open spec fn prefix_of(content: Seq<u8>, n: nat) -> Seq<u8> {
    if n <= content.len() {
        content.take(n as int)
    } else {
        content
    }
}

/// The partial hash of `content`: the hash of its first `partial_bytes` bytes.
pub open spec fn partial_digest(content: Seq<u8>, partial_bytes: nat) -> Seq<char> {
    blake3_hex(prefix_of(content, partial_bytes))
}

/// The full hash of `content`.
pub open spec fn full_digest(content: Seq<u8>) -> Seq<char> {
    blake3_hex(content)
}

/// Law: a file no longer than the partial length has a partial hash equal to
/// its full hash, so the partial pass alone confirms its content.
pub proof fn law_short_content_partial_is_full(content: Seq<u8>, partial_bytes: nat)
    requires
        content.len() <= partial_bytes,
    ensures
        partial_digest(content, partial_bytes) == full_digest(content),
{
    assert(prefix_of(content, partial_bytes) =~= content);
}

/// Law: the partial hash depends only on the first `partial_bytes` bytes, so
/// two contents that share them share the partial hash however they go on.
pub proof fn law_partial_digest_sees_only_prefix(a: Seq<u8>, b: Seq<u8>, partial_bytes: nat)
    requires
        partial_bytes <= a.len(),
        partial_bytes <= b.len(),
        a.take(partial_bytes as int) == b.take(partial_bytes as int),
    ensures
        partial_digest(a, partial_bytes) == partial_digest(b, partial_bytes),
{
}

/// Hashes the first `limit` bytes of a stream that is fed to it chunk by
/// chunk.
pub struct PrefixHasher {
    hasher: blake3::Hasher,
    limit: u64,
    remaining: u64,
    absorbed: Ghost<Seq<u8>>,
}

impl PrefixHasher {
    /// The bytes fed so far.
    pub closed spec fn absorbed(&self) -> Seq<u8> {
        self.absorbed@
    }

    /// The number of bytes to hash in all.
    pub closed spec fn limit(&self) -> u64 {
        self.limit
    }

    pub closed spec fn wf(&self) -> bool {
        &&& blake3_hasher_input(self.hasher) == self.absorbed@
        &&& self.absorbed@.len() + self.remaining == self.limit
    }

    /// A hasher for the first `limit` bytes that has been fed nothing.
    pub fn new(limit: u64) -> (h: Self)
        ensures
            h.wf(),
            h.limit() == limit,
            h.absorbed() == Seq::<u8>::empty(),
    {
        PrefixHasher { hasher: blake3_new(), limit, remaining: limit, absorbed: Ghost(Seq::empty()) }
    }

    /// How many more bytes the hasher takes.
    pub fn remaining(&self) -> (n: u64)
        requires
            self.wf(),
        ensures
            n == self.limit() - self.absorbed().len(),
    {
        self.remaining
    }

    /// How many bytes to read next into a buffer of `buffer_len` bytes:
    /// 0 once the limit is reached.
    pub fn next_read_len(&self, buffer_len: usize) -> (n: usize)
        requires
            self.wf(),
        ensures
            n as int == if buffer_len as int <= self.limit() - self.absorbed().len() {
                buffer_len as int
            } else {
                self.limit() - self.absorbed().len()
            },
    {
        if (buffer_len as u64) <= self.remaining {
            buffer_len
        } else {
            self.remaining as usize
        }
    }

    /// Feeds the next chunk of the stream.
    pub fn absorb(&mut self, chunk: &[u8])
        requires
            old(self).wf(),
            chunk@.len() <= old(self).limit() - old(self).absorbed().len(),
        ensures
            final(self).wf(),
            final(self).limit() == old(self).limit(),
            final(self).absorbed() == old(self).absorbed() + chunk@,
    {
        blake3_update(&mut self.hasher, chunk);
        self.remaining = self.remaining - chunk.len() as u64;
        self.absorbed = Ghost(self.absorbed@ + chunk@);
    }

    /// The partial hash: the hash of the bytes fed, as lowercase hexadecimal.
    pub fn finish(&self) -> (hex: String)
        requires
            self.wf(),
        ensures
            hex@ == blake3_hex(self.absorbed()),
            is_hex_digest(hex@),
    {
        blake3_finalize_hex(&self.hasher)
    }
}

/// Hashes a whole stream, fed chunk by chunk, and at the same time its first
/// `partial_bytes` bytes.
pub struct FullPartialHasher {
    full: blake3::Hasher,
    partial: blake3::Hasher,
    partial_bytes: u64,
    partial_remaining: u64,
    bytes_read: u64,
    absorbed: Ghost<Seq<u8>>,
}

impl FullPartialHasher {
    /// The bytes fed so far.
    pub closed spec fn absorbed(&self) -> Seq<u8> {
        self.absorbed@
    }

    /// The length of the prefix whose hash is the partial hash.
    pub closed spec fn partial_bytes(&self) -> u64 {
        self.partial_bytes
    }

    pub closed spec fn wf(&self) -> bool {
        &&& blake3_hasher_input(self.full) == self.absorbed@
        &&& blake3_hasher_input(self.partial) == prefix_of(
            self.absorbed@,
            self.partial_bytes as nat,
        )
        &&& self.bytes_read == self.absorbed@.len()
        &&& self.partial_remaining == if self.absorbed@.len() <= self.partial_bytes {
            self.partial_bytes - self.absorbed@.len()
        } else {
            0
        }
    }

    /// A hasher whose partial hash covers the first `partial_bytes` bytes,
    /// fed nothing yet.
    pub fn new(partial_bytes: u64) -> (h: Self)
        ensures
            h.wf(),
            h.partial_bytes() == partial_bytes,
            h.absorbed() == Seq::<u8>::empty(),
    {
        let h = FullPartialHasher {
            full: blake3_new(),
            partial: blake3_new(),
            partial_bytes,
            partial_remaining: partial_bytes,
            bytes_read: 0,
            absorbed: Ghost(Seq::empty()),
        };
        assert(prefix_of(Seq::<u8>::empty(), partial_bytes as nat) =~= Seq::<u8>::empty());
        h
    }

    /// The number of bytes fed so far.
    pub fn bytes_read(&self) -> (n: u64)
        requires
            self.wf(),
        ensures
            n == self.absorbed().len(),
    {
        self.bytes_read
    }

    /// Feeds the next chunk of the stream.
    pub fn absorb(&mut self, chunk: &[u8])
        requires
            old(self).wf(),
            old(self).absorbed().len() + chunk@.len() <= u64::MAX,
        ensures
            final(self).wf(),
            final(self).partial_bytes() == old(self).partial_bytes(),
            final(self).absorbed() == old(self).absorbed() + chunk@,
    {
        let ghost before = self.absorbed@;
        let ghost pb = self.partial_bytes as nat;
        blake3_update(&mut self.full, chunk);
        if self.partial_remaining > 0 {
            let take: usize = if (chunk.len() as u64) <= self.partial_remaining {
                chunk.len()
            } else {
                self.partial_remaining as usize
            };
            let head = slice_subrange(chunk, 0, take);
            blake3_update(&mut self.partial, head);
            self.partial_remaining = self.partial_remaining - take as u64;
            proof {
                let after = before + chunk@;
                assert(before.len() < pb);
                assert(prefix_of(before, pb) =~= before);
                assert(prefix_of(after, pb) =~= before + head@);
            }
        } else {
            proof {
                let after = before + chunk@;
                assert(prefix_of(after, pb) =~= prefix_of(before, pb));
            }
        }
        self.bytes_read = self.bytes_read + chunk.len() as u64;
        self.absorbed = Ghost(before + chunk@);
    }

    /// The partial hash, the full hash and the number of bytes fed.
    pub fn finish(&self) -> (r: (String, String, u64))
        requires
            self.wf(),
        ensures
            r.0@ == partial_digest(self.absorbed(), self.partial_bytes() as nat),
            r.1@ == full_digest(self.absorbed()),
            r.2 == self.absorbed().len(),
            is_hex_digest(r.0@),
            is_hex_digest(r.1@),
    {
        (blake3_finalize_hex(&self.partial), blake3_finalize_hex(&self.full), self.bytes_read)
    }
}

/// Law: a partial pass over the first `partial_bytes` bytes of some content
/// and a full pass over all of it agree on the partial hash; when the content
/// is no longer than `partial_bytes`, the partial pass's hash is also the
/// full hash. So an index run and a scan of the same content agree.
pub proof fn law_partial_pass_agrees_with_full_pass(p: PrefixHasher, f: FullPartialHasher)
    requires
        p.limit() == f.partial_bytes(),
        p.absorbed() == prefix_of(f.absorbed(), f.partial_bytes() as nat),
    ensures
        blake3_hex(p.absorbed()) == partial_digest(f.absorbed(), f.partial_bytes() as nat),
        f.absorbed().len() <= f.partial_bytes() ==> blake3_hex(p.absorbed()) == full_digest(
            f.absorbed(),
        ),
{
    if f.absorbed().len() <= f.partial_bytes() {
        assert(prefix_of(f.absorbed(), f.partial_bytes() as nat) =~= f.absorbed());
    }
}

/// What the scan knows of a file's content.
#[derive(Debug)]
pub struct FileFingerprint {
    pub size: u64,
    pub mtime_ns: i64,
    pub partial_hash: String,
    pub full_hash: Option<String>,
    pub bytes_read: u64,
}

/// A fingerprint stored in the cache by an earlier scan.
#[derive(Debug)]
pub struct CacheEntry {
    pub size: u64,
    pub mtime_ns: i64,
    pub partial_hash: String,
    pub full_hash: Option<String>,
}

/// The fingerprint that a cache entry stands for: its fields, with no
/// byte read.
pub open spec fn cache_fingerprint(entry: CacheEntry) -> FileFingerprint {
    FileFingerprint {
        size: entry.size,
        mtime_ns: entry.mtime_ns,
        partial_hash: entry.partial_hash,
        full_hash: entry.full_hash,
        bytes_read: 0,
    }
}

/// The fingerprint that a cache entry stands for; no byte is read for it.
pub fn fingerprint_from_cache(entry: CacheEntry) -> (fp: FileFingerprint)
    ensures
        fp == cache_fingerprint(entry),
{
    FileFingerprint {
        size: entry.size,
        mtime_ns: entry.mtime_ns,
        partial_hash: entry.partial_hash,
        full_hash: entry.full_hash,
        bytes_read: 0,
    }
}

/// The fingerprint of a file from its partial hash alone. A file no longer
/// than the partial length was read whole, so its partial hash is also its
/// full hash; a longer file has no full hash yet.
pub fn fingerprint_from_partial(size: u64, mtime_ns: i64, partial_bytes: u64, partial_hash: String)
    -> (fp: FileFingerprint)
    ensures
        fp.size == size,
        fp.mtime_ns == mtime_ns,
        fp.partial_hash@ == partial_hash@,
        size <= partial_bytes ==> (fp.full_hash matches Some(f) && f@ == partial_hash@),
        size > partial_bytes ==> fp.full_hash is None,
        fp.bytes_read == if partial_bytes <= size {
            partial_bytes
        } else {
            size
        },
{
    let full_hash = if size <= partial_bytes {
        Some(partial_hash.clone())
    } else {
        None
    };
    let bytes_read = if partial_bytes <= size {
        partial_bytes
    } else {
        size
    };
    FileFingerprint { size, mtime_ns, partial_hash, full_hash, bytes_read }
}

} // verus!
