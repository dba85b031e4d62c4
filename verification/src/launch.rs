//! Finding the installer to launch in a directory listing.
use vstd::prelude::*;
use crate::text::{chars_of, matches_at, occurs_at};

verus! {

/// Why the secondary product could not be launched.
#[derive(Clone, Copy, Debug, PartialEq, Eq, Structural)]
pub enum LaunchError {
    /// The extracted tree holds no executable.
    ExecutableNotFound,
    /// The executable could not be started.
    SpawnFailed,
}

/// One entry of a directory listing.
#[derive(Clone, Debug, PartialEq, Eq)]
pub struct ListedEntry {
    pub name: String,
    pub is_file: bool,
}

/// `name` ends in `suffix`.
pub open spec fn ends_with(name: Seq<char>, suffix: Seq<char>) -> bool {
    suffix.len() <= name.len() && occurs_at(name, suffix, name.len() - suffix.len())
}

/// The entry is a file whose name ends in the executable suffix.
pub open spec fn is_executable(entry: ListedEntry, suffix: Seq<char>) -> bool {
    entry.is_file && ends_with(entry.name@, suffix)
}

/// Whether the entry is a file whose name ends in the executable suffix.
pub fn looks_executable(entry: &ListedEntry, suffix: &Vec<char>) -> (b: bool)
    ensures
        b == is_executable(*entry, suffix@),
{
    if !entry.is_file {
        return false;
    }
    let name = chars_of(entry.name.as_str());
    if suffix.len() > name.len() {
        return false;
    }
    matches_at(&name, suffix, name.len() - suffix.len())
}

/// Finds the executable to launch: the first entry of the listing, in the
/// order given, that is a file whose name ends in `suffix`.
///
/// Fails with `ExecutableNotFound` exactly when the listing holds no such
/// entry.
pub fn locate_executable(listing: &Vec<ListedEntry>, suffix: &str) -> (r: Result<usize, LaunchError>)
    ensures
        match r {
            Ok(index) => {
                &&& index < listing.len()
                &&& is_executable(listing@[index as int], suffix@)
                &&& forall|k: int| 0 <= k < index ==> !is_executable(listing@[k], suffix@)
            },
            Err(e) => {
                &&& e == LaunchError::ExecutableNotFound
                &&& forall|k: int| 0 <= k < listing.len() ==> !is_executable(listing@[k], suffix@)
            },
        },
{
    let wanted = chars_of(suffix);
    let mut i: usize = 0;
    while i < listing.len()
        invariant
            i <= listing.len(),
            wanted@ == suffix@,
            forall|k: int| 0 <= k < i ==> !is_executable(listing@[k], suffix@),
        decreases listing.len() - i,
    {
        if looks_executable(&listing[i], &wanted) {
            return Ok(i);
        }
        i = i + 1;
    }
    Err(LaunchError::ExecutableNotFound)
}

} // verus!
