//! Paths, held as text: adjoining a component to one, and resolving one
//! against a working directory.

use vstd::prelude::*;

verus! {

/// The path `base` with `component` adjoined to it, as the platform's path
/// rules have it.
pub uninterp spec fn joined(base: Seq<char>, component: Seq<char>) -> Seq<char>;

/// `std::path::Path::join`, from text to text. Taken on trust: the joined path
/// depends on the two texts alone. Both are valid Unicode, so the joined path
/// is too, and converting it back to text loses nothing.
#[verifier::external_body]
pub(crate) fn join(base: &str, component: &str) -> (r: String)
    ensures
        r@ == joined(base@, component@),
{
    std::path::Path::new(base).join(component).to_string_lossy().into_owned()
}

/// Whether a path is relative, as the platform's path rules have it.
pub uninterp spec fn relative(path: Seq<char>) -> bool;

/// `std::path::Path::is_relative`, on a text. Taken on trust: the answer
/// depends on the text alone.
#[verifier::external_body]
pub(crate) fn is_relative(path: &str) -> (r: bool)
    ensures
        r == relative(path@),
{
    std::path::Path::new(path).is_relative()
}

/// A directory as seen from a working directory: a relative one is adjoined
/// to the working directory, and any other stands as it is.
pub open spec fn resolved_against(working_dir: Seq<char>, dir: Seq<char>) -> Seq<char> {
    if relative(dir) {
        joined(working_dir, dir)
    } else {
        dir
    }
}

/// Resolves a directory against a working directory.
pub fn resolve_against(working_dir: &str, dir: &str) -> (r: String)
    ensures
        r@ == resolved_against(working_dir@, dir@),
{
    if is_relative(dir) {
        join(working_dir, dir)
    } else {
        dir.to_owned()
    }
}

} // verus!
