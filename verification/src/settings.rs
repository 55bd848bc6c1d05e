//! The defaults of the command line and the settings kept in the database.
use vstd::prelude::*;

use crate::text::{decimal, decimal_string, parse_decimal_u64, parse_u64_spec};

verus! {

/// The version of the database schema.
pub const SCHEMA_VERSION: i64 = 2;

/// The default length of the prefix whose hash is the partial hash (64 KiB).
pub const DEFAULT_PARTIAL_BYTES: u64 = 65536;

/// The default number of writes gathered before a commit.
pub const DEFAULT_COMMIT_EVERY: u64 = 1000;

/// The default pause between progress lines, in seconds.
pub const DEFAULT_PROGRESS_EVERY_SECONDS: u64 = 10;

/// The size of the buffer that files are read through.
pub const READ_BUFFER_BYTES: usize = 1048576;

/// Whether a table's column names include `column`.
pub fn has_column(names: &Vec<String>, column: &String) -> (found: bool)
    ensures
        found == exists|i: int| 0 <= i < names@.len() && (#[trigger] names@[i])@ == column@,
{
    let n = names.len();
    for i in 0..n
        invariant
            n == names@.len(),
            forall|j: int| 0 <= j < i ==> (#[trigger] names@[j])@ != column@,
    {
        if names[i] == *column {
            return true;
        }
    }
    false
}

/// Whether a cache table made by an older schema, which lacks the `root`
/// column, is to be dropped and made again.
pub fn table_needs_rebuild(table_exists: bool, has_root_column: bool) -> (rebuild: bool)
    ensures
        rebuild == (table_exists && !has_root_column),
{
    table_exists && !has_root_column
}

/// The stored text of the `partial_bytes` setting.
pub fn partial_bytes_text(partial_bytes: u64) -> (t: String)
    ensures
        t@ == decimal(partial_bytes as nat),
{
    decimal_string(partial_bytes)
}

/// The partial length to scan with, from the stored `partial_bytes`
/// setting: its value when it is a valid number, else the default.
pub fn partial_bytes_from_meta(stored: Option<&str>) -> (n: u64)
    ensures
        n == match stored {
            Some(t) => match parse_u64_spec(t@) {
                Some(v) => v,
                None => DEFAULT_PARTIAL_BYTES,
            },
            None => DEFAULT_PARTIAL_BYTES,
        },
{
    match stored {
        Some(t) => match parse_decimal_u64(t) {
            Some(v) => v,
            None => DEFAULT_PARTIAL_BYTES,
        },
        None => DEFAULT_PARTIAL_BYTES,
    }
}

} // verus!
