//! The decisions of indexing the sensitive source files, and the metrics
//! kept while doing it.
use vstd::prelude::*;

use crate::error::AuditError;

verus! {

/// Refuses an index run with `partial_bytes` or `commit_every` zero.
pub fn validate_index_settings(partial_bytes: u64, commit_every: u64) -> (r: Result<(), AuditError>)
    ensures
        partial_bytes == 0 ==> r == Err::<(), AuditError>(AuditError::PartialBytesZero),
        partial_bytes > 0 && commit_every == 0 ==> r == Err::<(), AuditError>(
            AuditError::CommitEveryZero,
        ),
        partial_bytes > 0 && commit_every > 0 ==> r is Ok,
{
    if partial_bytes == 0 {
        return Err(AuditError::PartialBytesZero);
    }
    if commit_every == 0 {
        return Err(AuditError::CommitEveryZero);
    }
    Ok(())
}

/// What is done with a listed source path, given its metadata.
#[derive(Debug, Clone, Copy, PartialEq, Eq, Structural)]
pub enum SourceDecision {
    /// The path is missing or its metadata cannot be read.
    Missing,
    /// The path is not a regular file.
    NotAFile,
    /// The file is smaller than the minimum size of interest.
    BelowMinimum,
    /// The file is to be hashed and indexed.
    Hash,
}

/// The decision for a listed source path: `metadata` is `None` when it
/// cannot be read, else whether the path is a regular file and its size.
pub fn classify_source(metadata: Option<(bool, u64)>, min_size: u64) -> (c: SourceDecision)
    ensures
        c == match metadata {
            None => SourceDecision::Missing,
            Some((is_file, size)) => if !is_file {
                SourceDecision::NotAFile
            } else if size < min_size {
                SourceDecision::BelowMinimum
            } else {
                SourceDecision::Hash
            },
        },
{
    match metadata {
        None => SourceDecision::Missing,
        Some((is_file, size)) => {
            if !is_file {
                SourceDecision::NotAFile
            } else if size < min_size {
                SourceDecision::BelowMinimum
            } else {
                SourceDecision::Hash
            }
        },
    }
}

/// How a listed source path ended.
#[derive(Debug, Clone, Copy, PartialEq, Eq, Structural)]
pub enum SourceOutcome {
    Missing,
    NotAFile,
    BelowMinimum,
    /// Hashed and stored, after reading this many bytes.
    Indexed(u64),
    ReadError,
}

/// The counters that an index run reports.
#[derive(Debug, Clone, Copy, PartialEq, Eq, Structural)]
pub struct IndexMetrics {
    pub sensitive_paths_seen: u64,
    pub files_indexed: u64,
    pub missing_paths: u64,
    pub skipped_non_files: u64,
    pub files_skipped_min_size: u64,
    pub read_errors: u64,
    pub bytes_hashed: u64,
}

impl IndexMetrics {
    /// All counters at zero.
    pub fn new() -> (m: Self)
        ensures
            m == (IndexMetrics {
                sensitive_paths_seen: 0,
                files_indexed: 0,
                missing_paths: 0,
                skipped_non_files: 0,
                files_skipped_min_size: 0,
                read_errors: 0,
                bytes_hashed: 0,
            }),
            m.balanced(),
    {
        IndexMetrics {
            sensitive_paths_seen: 0,
            files_indexed: 0,
            missing_paths: 0,
            skipped_non_files: 0,
            files_skipped_min_size: 0,
            read_errors: 0,
            bytes_hashed: 0,
        }
    }

    /// The number of paths whose outcome has been counted.
    pub open spec fn outcomes(&self) -> int {
        self.files_indexed + self.missing_paths + self.skipped_non_files
            + self.files_skipped_min_size + self.read_errors
    }

    /// Every path seen has ended in exactly one counted outcome.
    pub open spec fn balanced(&self) -> bool {
        self.sensitive_paths_seen == self.outcomes()
    }

    /// Counts a listed path whose outcome is still to come.
    pub fn begin_path(&mut self)
        requires
            old(self).balanced(),
            old(self).sensitive_paths_seen < u64::MAX,
        ensures
            final(self).sensitive_paths_seen == final(self).outcomes() + 1,
            *final(self) == (IndexMetrics {
                sensitive_paths_seen: (old(self).sensitive_paths_seen + 1) as u64,
                ..*old(self)
            }),
    {
        self.sensitive_paths_seen = self.sensitive_paths_seen + 1;
    }

    /// Counts the outcome of the path begun last.
    pub fn finish_path(&mut self, outcome: SourceOutcome)
        requires
            old(self).sensitive_paths_seen == old(self).outcomes() + 1,
            outcome matches SourceOutcome::Indexed(bytes) ==> old(self).bytes_hashed + bytes
                <= u64::MAX,
        ensures
            final(self).balanced(),
            *final(self) == match outcome {
                SourceOutcome::Missing => (IndexMetrics {
                    missing_paths: (old(self).missing_paths + 1) as u64,
                    ..*old(self)
                }),
                SourceOutcome::NotAFile => (IndexMetrics {
                    skipped_non_files: (old(self).skipped_non_files + 1) as u64,
                    ..*old(self)
                }),
                SourceOutcome::BelowMinimum => (IndexMetrics {
                    files_skipped_min_size: (old(self).files_skipped_min_size + 1) as u64,
                    ..*old(self)
                }),
                SourceOutcome::Indexed(bytes) => (IndexMetrics {
                    files_indexed: (old(self).files_indexed + 1) as u64,
                    bytes_hashed: (old(self).bytes_hashed + bytes) as u64,
                    ..*old(self)
                }),
                SourceOutcome::ReadError => (IndexMetrics {
                    read_errors: (old(self).read_errors + 1) as u64,
                    ..*old(self)
                }),
            },
    {
        match outcome {
            SourceOutcome::Missing => {
                self.missing_paths = self.missing_paths + 1;
            },
            SourceOutcome::NotAFile => {
                self.skipped_non_files = self.skipped_non_files + 1;
            },
            SourceOutcome::BelowMinimum => {
                self.files_skipped_min_size = self.files_skipped_min_size + 1;
            },
            SourceOutcome::Indexed(bytes) => {
                self.files_indexed = self.files_indexed + 1;
                self.bytes_hashed = self.bytes_hashed + bytes;
            },
            SourceOutcome::ReadError => {
                self.read_errors = self.read_errors + 1;
            },
        }
    }
}

} // verus!
