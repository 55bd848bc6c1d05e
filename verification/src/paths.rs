//! The keys under which destination paths are stored.
use vstd::prelude::*;

use crate::error::AuditError;
use crate::text::{forward_slashes, normalize_separators};

verus! {

/// What `Path::strip_prefix` leaves of the path spelled by `path` once the
/// leading path spelled by `root` is taken off, as text; `None` when `root`
/// is not a leading part of `path`. Within one build this depends on the two
/// texts alone.
pub uninterp spec fn path_remainder(path: Seq<char>, root: Seq<char>) -> Option<Seq<char>>;

/// `Path::strip_prefix` from std on the paths spelled by `path` and `root`,
/// with the remainder converted to text as `to_string_lossy` does; `None`
/// when `root` is not a leading part of `path`. A path stripped of itself
/// leaves the empty path.
#[verifier::external_body]
fn strip_path_prefix(path: &str, root: &str) -> (rest: Option<String>)
    ensures
        match rest {
            Some(s) => path_remainder(path@, root@) == Some(s@),
            None => path_remainder(path@, root@) is None,
        },
        path@ == root@ ==> rest is Some && rest->0@ == Seq::<char>::empty(),
{
    match std::path::Path::new(path).strip_prefix(root) {
        Ok(rel) => Some(rel.to_string_lossy().into_owned()),
        Err(_) => None,
    }
}

/// The key of a scanned root: its text with forward slashes only.
pub fn root_key(root: &str) -> (key: String)
    ensures
        key@ == forward_slashes(root@),
        key@.len() == root@.len(),
        forall|i: int| 0 <= i < root@.len() && root@[i] != '\\' ==> key@[i] == root@[i],
        forall|i: int| 0 <= i < root@.len() && root@[i] == '\\' ==> key@[i] == '/',
{
    normalize_separators(root)
}

/// The path of `path` relative to `root`, with forward slashes only; an
/// error when `path` does not lie under `root`.
pub fn normalize_rel(path: &str, root: &str) -> (r: Result<String, AuditError>)
    ensures
        match path_remainder(path@, root@) {
            Some(rest) => r matches Ok(rel) && rel@ == forward_slashes(rest) && rel@.len()
                == rest.len() && (forall|i: int|
                0 <= i < rest.len() && rest[i] != '\\' ==> rel@[i] == rest[i]) && (forall|i: int|
                0 <= i < rest.len() && rest[i] == '\\' ==> rel@[i] == '/'),
            None => r == Err::<String, AuditError>(AuditError::PathNotUnderRoot),
        },
        path@ == root@ ==> (r matches Ok(rel) && rel@ == Seq::<char>::empty()),
{
    match strip_path_prefix(path, root) {
        Some(rest) => Ok(normalize_separators(rest.as_str())),
        None => Err(AuditError::PathNotUnderRoot),
    }
}

} // verus!
