//! Conversions between the integers of the file system and of SQLite.
use vstd::prelude::*;

use crate::error::AuditError;

verus! {

/// A size as a SQLite INTEGER; sizes above `i64::MAX` are refused.
pub fn size_to_i64(size: u64) -> (r: Result<i64, AuditError>)
    ensures
        match r {
            Ok(v) => size <= i64::MAX && v as int == size as int,
            Err(e) => size > i64::MAX && e == AuditError::SizeOutOfRange(size),
        },
{
    if size > i64::MAX as u64 {
        return Err(AuditError::SizeOutOfRange(size));
    }
    Ok(size as i64)
}

/// A stored SQLite INTEGER as a size; negative values are refused.
pub fn i64_to_u64(value: i64) -> (r: Result<u64, AuditError>)
    ensures
        match r {
            Ok(v) => value >= 0 && v as int == value as int,
            Err(e) => value < 0 && e == AuditError::NegativeInteger(value),
        },
{
    if value < 0 {
        return Err(AuditError::NegativeInteger(value));
    }
    Ok(value as u64)
}

/// Law: every size that can be stored is read back unchanged.
pub proof fn law_size_round_trip(size: u64)
    requires
        size <= i64::MAX,
    ensures
        size as i64 >= 0,
        (size as i64) as u64 == size,
{
}

/// A modification time in nanoseconds since the epoch as stored in SQLite:
/// an unknown time is 0 and a time past `i64::MAX` nanoseconds is clamped.
pub fn mtime_ns_from_nanos(nanos: Option<u128>) -> (r: i64)
    ensures
        match nanos {
            None => r == 0,
            Some(n) => if n > i64::MAX as u128 {
                r == i64::MAX
            } else {
                r as int == n as int
            },
        },
{
    match nanos {
        None => 0,
        Some(n) => {
            if n > i64::MAX as u128 {
                i64::MAX
            } else {
                n as i64
            }
        },
    }
}

} // verus!
