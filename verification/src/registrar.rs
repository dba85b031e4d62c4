//! Deciding what the persisted user search path becomes when a directory is
//! to be on it.
use vstd::prelude::*;
use crate::text::{
    append_chars, chars_of, contains, contains_chars, matches_at, occurs_at, string_of,
};

verus! {

/// Why the search path could not be updated.
#[derive(Clone, Copy, Debug, PartialEq, Eq, Structural)]
pub enum PathError {
    /// The persistent store cannot be opened for reading and writing.
    StoreUnavailable,
}

/// How to decide that a directory is already on the path.
#[derive(Clone, Copy, Debug, PartialEq, Eq, Structural)]
pub enum Containment {
    /// The directory occurs anywhere in the value, even inside a longer
    /// directory name.
    Substring,
    /// The directory occurs between list separators or the ends of the value.
    Segment,
}

/// `directory` occurs in `value` at `at`, bounded on each side by the
/// separator or by an end of the value.
pub open spec fn occurs_as_segment(
    value: Seq<char>,
    directory: Seq<char>,
    separator: char,
    at: int,
) -> bool {
    &&& occurs_at(value, directory, at)
    &&& (at == 0 || value[at - 1] == separator)
    &&& (at + directory.len() == value.len() || value[at + directory.len()] == separator)
}

/// `directory` is already on the path `value`.
pub open spec fn on_path(
    value: Seq<char>,
    directory: Seq<char>,
    separator: char,
    containment: Containment,
) -> bool {
    match containment {
        Containment::Substring => contains(value, directory),
        Containment::Segment => exists|at: int| occurs_as_segment(value, directory, separator, at),
    }
}

/// The path `value` with `directory` added at its end.
pub open spec fn appended(value: Seq<char>, directory: Seq<char>, separator: char) -> Seq<char> {
    value.push(separator) + directory
}

/// The value that is persisted once `directory` has been ensured on `value`.
pub open spec fn registered(
    value: Seq<char>,
    directory: Seq<char>,
    separator: char,
    containment: Containment,
) -> Seq<char> {
    if on_path(value, directory, separator, containment) {
        value
    } else {
        appended(value, directory, separator)
    }
}

/// Whether `directory` occurs in `value` as a segment.
fn contains_segment(value: &Vec<char>, directory: &Vec<char>, separator: char) -> (b: bool)
    ensures
        b == on_path(value@, directory@, separator, Containment::Segment),
{
    if directory.len() > value.len() {
        return false;
    }
    let last: usize = value.len() - directory.len();
    let mut at: usize = 0;
    loop
        invariant
            at <= last,
            last == value.len() - directory.len(),
            directory.len() <= value.len(),
            forall|k: int| 0 <= k < at ==> !occurs_as_segment(value@, directory@, separator, k),
        ensures
            at == last,
            forall|k: int| 0 <= k <= last ==> !occurs_as_segment(value@, directory@, separator, k),
        decreases last - at,
    {
        let starts = at == 0 || value[at - 1] == separator;
        let ends = at == last || value[at + directory.len()] == separator;
        if starts && ends && matches_at(value, directory, at) {
            assert(occurs_as_segment(value@, directory@, separator, at as int));
            return true;
        }
        if at == last {
            break;
        }
        at = at + 1;
    }
    false
}

/// Decides what to write so that `directory` is on the persisted search path
/// whose current value is `current`.
///
/// Returns `None` when the directory is already on the path, so that nothing
/// is to be written; otherwise the value to write, which is the current value,
/// the separator and the directory.
pub fn ensure_on_user_path(
    current: &str,
    directory: &str,
    separator: char,
    containment: Containment,
) -> (r: Option<String>)
    ensures
        match r {
            None => on_path(current@, directory@, separator, containment),
            Some(updated) => !on_path(current@, directory@, separator, containment) && updated@
                == appended(current@, directory@, separator),
        },
        r is Some ==> r->0@ == registered(current@, directory@, separator, containment),
        r is None ==> current@ == registered(current@, directory@, separator, containment),
{
    let value = chars_of(current);
    let wanted = chars_of(directory);
    let present = match containment {
        Containment::Substring => contains_chars(&value, &wanted),
        Containment::Segment => contains_segment(&value, &wanted, separator),
    };
    if present {
        None
    } else {
        let mut updated = value;
        updated.push(separator);
        append_chars(&mut updated, &wanted);
        Some(string_of(&updated))
    }
}

/// Ensuring a directory a second time changes nothing: after the first call
/// the directory is on the path, whichever way containment is decided.
pub proof fn lemma_registration_idempotent(
    value: Seq<char>,
    directory: Seq<char>,
    separator: char,
    containment: Containment,
)
    ensures
        on_path(registered(value, directory, separator, containment), directory, separator, containment),
        registered(
            registered(value, directory, separator, containment),
            directory,
            separator,
            containment,
        ) == registered(value, directory, separator, containment),
{
    if !on_path(value, directory, separator, containment) {
        let after = appended(value, directory, separator);
        let at: int = (value.len() + 1) as int;
        assert(after.subrange(at, at + directory.len()) =~= directory);
        assert(occurs_at(after, directory, at));
        assert(after[at - 1] == separator);
        assert(occurs_as_segment(after, directory, separator, at));
    }
}

} // verus!
