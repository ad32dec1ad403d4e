//! File system paths, held as text. Joining and splitting follow the rules
//! of the platform, which the standard library applies.
use vstd::prelude::*;

verus! {

/// The path that results from adjoining `name` to `base`.
pub uninterp spec fn joined_path(base: Seq<char>, name: Seq<char>) -> Seq<char>;

/// The final component of `path`, if it has one.
pub uninterp spec fn final_component(path: Seq<char>) -> Option<Seq<char>>;

/// The text of an optional string.
pub open spec fn opt_text(o: Option<String>) -> Option<Seq<char>> {
    match o {
        Some(s) => Some(s@),
        None => None,
    }
}

/// Adjoins `name` to `base` with `std::path::Path::join`.
///
/// Trusted: the result is a function of the two texts; it is `joined_path`.
#[verifier::external_body]
pub(crate) fn join_path(base: &String, name: &String) -> (r: String)
    ensures
        r@ == joined_path(base@, name@),
{
    std::path::Path::new(base).join(name).to_string_lossy().into_owned()
}

/// The final component of `path`, read with `std::path::Path::file_name`.
///
/// Trusted: the result is a function of the text; it is `final_component`.
#[verifier::external_body]
pub(crate) fn file_name(path: &String) -> (r: Option<String>)
    ensures
        opt_text(r) == final_component(path@),
{
    match std::path::Path::new(path).file_name() {
        Some(name) => Some(name.to_string_lossy().into_owned()),
        None => None,
    }
}

} // verus!
