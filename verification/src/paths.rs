//! File-system paths and durations as the library carries them: opaque values that it builds
//! from strings and numbers and hands on unchanged.
use vstd::prelude::*;

verus! {

#[verifier::external_type_specification]
#[verifier::external_body]
pub struct ExPathBuf(std::path::PathBuf);

/// `PathBuf::clone`: nothing is stated of the copy, which verified code only carries along.
pub assume_specification[ <std::path::PathBuf as Clone>::clone ](p: &std::path::PathBuf) -> std::path::PathBuf;

/// The path that `PathBuf::from` makes of a string.
pub uninterp spec fn path_of(s: Seq<char>) -> std::path::PathBuf;

/// `PathBuf::from(String)`: the path is the string's text, taken as it is.
#[verifier::external_body]
pub(crate) fn path_from_string(s: String) -> (r: std::path::PathBuf)
    ensures
        r == path_of(s@),
{
    std::path::PathBuf::from(s)
}

/// `Duration::clone`: `Duration` is `Copy`, and its clone is the same value.
pub assume_specification[ <std::time::Duration as Clone>::clone ](d: &std::time::Duration) -> (r: std::time::Duration)
    ensures
        r == *d,
;

/// The duration that `Duration::from_secs` makes of a number of seconds.
pub uninterp spec fn duration_of_secs(secs: u64) -> std::time::Duration;

/// `Duration::from_secs`: whole seconds, no fraction; it accepts every `u64`.
#[verifier::external_body]
pub(crate) fn duration_from_secs(secs: u64) -> (r: std::time::Duration)
    ensures
        r == duration_of_secs(secs),
{
    std::time::Duration::from_secs(secs)
}

} // verus!
