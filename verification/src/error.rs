//! The errors that the library reports.
use vstd::prelude::*;

use crate::text::{decimal, decimal_string};

verus! {

/// Why a request was refused or a value could not be used.
#[derive(Debug, Clone, Copy, PartialEq, Eq, Structural)]
pub enum AuditError {
    /// `--partial-bytes` was zero.
    PartialBytesZero,
    /// `--commit-every` was zero.
    CommitEveryZero,
    /// `--threads` was zero.
    ThreadsZero,
    /// A file size above the largest SQLite INTEGER.
    SizeOutOfRange(u64),
    /// A stored integer that is negative where a size was expected.
    NegativeInteger(i64),
    /// A walked path that does not lie under the scanned root.
    PathNotUnderRoot,
    /// The database holds no indexed sensitive file.
    EmptyIndex,
}

impl AuditError {
    /// The text that describes the error to a user.
    pub fn message(&self) -> (r: String)
        ensures
            match *self {
                AuditError::SizeOutOfRange(size) => r@ == "file size "@ + decimal(size as nat)
                    + " exceeds SQLite INTEGER range"@,
                AuditError::PartialBytesZero => r@ == "--partial-bytes must be greater than zero"@,
                AuditError::CommitEveryZero => r@ == "--commit-every must be greater than zero"@,
                AuditError::ThreadsZero => r@ == "--threads must be greater than zero"@,
                AuditError::NegativeInteger(_) => r@ == "stored integer is negative"@,
                AuditError::PathNotUnderRoot => r@ == "path is not under the scanned root"@,
                AuditError::EmptyIndex => r@
                    == "database contains no sensitive file index; run index-sensitive first"@,
            },
    {
        match *self {
            AuditError::SizeOutOfRange(size) => {
                let mut s = String::from_str("file size ");
                let digits = decimal_string(size);
                s.append(digits.as_str());
                s.append(" exceeds SQLite INTEGER range");
                s
            },
            AuditError::PartialBytesZero => String::from_str(
                "--partial-bytes must be greater than zero",
            ),
            AuditError::CommitEveryZero => String::from_str("--commit-every must be greater than zero"),
            AuditError::ThreadsZero => String::from_str("--threads must be greater than zero"),
            AuditError::NegativeInteger(_) => String::from_str("stored integer is negative"),
            AuditError::PathNotUnderRoot => String::from_str("path is not under the scanned root"),
            AuditError::EmptyIndex => String::from_str(
                "database contains no sensitive file index; run index-sensitive first",
            ),
        }
    }
}

} // verus!
