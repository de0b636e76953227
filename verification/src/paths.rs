//! File-system paths, as far as the workflows look at them.

use vstd::prelude::*;

verus! {

/// The final component of `path`, as `std::path::Path::file_name` finds it
/// under the path syntax of the platform that the library is built for.
/// There is none, for one, when the path ends in `..`.
pub uninterp spec fn final_component(path: Seq<char>) -> Option<Seq<char>>;

/// The view of an optional string.
pub open spec fn name_model(name: Option<String>) -> Option<Seq<char>> {
    match name {
        Some(n) => Some(n@),
        None => None,
    }
}

/// Calls `std::path::Path::file_name`, which looks at the text of the path
/// alone, and hands the component back as a string.
#[verifier::external_body]
pub(crate) fn file_name_of(path: &str) -> (name: Option<String>)
    ensures
        name_model(name) == final_component(path@),
{
    match std::path::Path::new(path).file_name() {
        Some(name) => Some(name.to_string_lossy().into_owned()),
        None => None,
    }
}

} // verus!
