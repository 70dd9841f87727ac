//! What the library takes from outside code on trust: the wall clock, Unicode
//! lower-casing and the path type of std.
use vstd::prelude::*;

verus! {

/// `std::path::PathBuf`: filesystem paths are carried through the library
/// without being inspected.
#[verifier::external_type_specification]
#[verifier::external_body]
pub struct ExPathBuf(std::path::PathBuf);

/// Relies on `chrono::Utc::now` and `DateTime::timestamp_millis`: the current
/// time in milliseconds since the Unix epoch. Nothing is promised of the
/// value: it depends on the moment of the call.
#[verifier::external_body]
pub fn now_millis() -> (r: i64) {
    chrono::Utc::now().timestamp_millis()
}

/// What `str::to_lowercase` returns for a string: a function of its
/// characters alone.
pub uninterp spec fn lower_of(s: Seq<char>) -> Seq<char>;

/// Relies on `str::to_lowercase`: the lower-case form of `s` by Unicode's
/// case mapping; the empty string stays empty.
#[verifier::external_body]
pub fn lowercase(s: &str) -> (r: String)
    ensures
        r@ == lower_of(s@),
        s@.len() == 0 ==> r@.len() == 0,
{
    s.to_lowercase()
}

} // verus!
