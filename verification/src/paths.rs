//! Paths. The library holds a path as the text it is written with, and asks
//! `std::path` whenever a path has to be compared, split or extended. What
//! `std::path` answers depends on the platform the library is built for (the
//! separator, drive prefixes), so the answers are named here and not spelled
//! out: the contracts of the library speak of them by these names.

use crate::text::option_text;
use std::path::Path;
use vstd::prelude::*;

verus! {

/// Whether `std::path::Path` holds two paths equal: it compares them
/// component by component, so that a repeated separator, a trailing separator
/// or a `.` inside a path makes no difference.
pub uninterp spec fn path_components_equal(a: Seq<char>, b: Seq<char>) -> bool;

/// The final component of a path as `std::path::Path::file_name` gives it, if
/// the path has one.
pub uninterp spec fn path_file_name(path: Seq<char>) -> Option<Seq<char>>;

/// The path that `std::path::Path::join` makes of a base and a path to add
/// to it.
pub uninterp spec fn path_join(base: Seq<char>, rel: Seq<char>) -> Seq<char>;

/// Two texts name the same path: they are the same text, or `std::path` holds
/// the paths equal.
pub open spec fn same_path(a: Seq<char>, b: Seq<char>) -> bool {
    a == b || path_components_equal(a, b)
}

/// `==` of `std::path::Path`, on the paths written as `a` and `b`. The result
/// is the comparison by components; `Path` is `Eq`, so a path equals itself.
#[verifier::external_body]
pub(crate) fn paths_equal(a: &str, b: &str) -> (r: bool)
    ensures
        r == path_components_equal(a@, b@),
        a@ == b@ ==> r,
{
    Path::new(a) == Path::new(b)
}

/// `std::path::Path::file_name` of the path written as `path`, as text. The
/// path was made from a string, so the name is text too and nothing is lost.
#[verifier::external_body]
pub(crate) fn file_name_of(path: &str) -> (r: Option<String>)
    ensures
        option_text(r) == path_file_name(path@),
{
    match Path::new(path).file_name() {
        Some(name) => Some(name.to_string_lossy().into_owned()),
        None => None,
    }
}

/// `std::path::Path::join` of the path written as `base` with `rel`, as
/// text. Both were made from strings, so the result is text too and nothing
/// is lost.
#[verifier::external_body]
pub(crate) fn join_path(base: &str, rel: &str) -> (r: String)
    ensures
        r@ == path_join(base@, rel@),
{
    Path::new(base).join(rel).to_string_lossy().into_owned()
}

/// The first index at which `paths` holds a path that is the same as `path`.
pub open spec fn is_first_match(paths: Seq<Seq<char>>, path: Seq<char>, i: int) -> bool {
    &&& 0 <= i < paths.len()
    &&& same_path(paths[i], path)
    &&& forall|j: int| 0 <= j < i ==> !same_path(#[trigger] paths[j], path)
}

/// No path in `paths` is the same as `path`.
pub open spec fn no_match(paths: Seq<Seq<char>>, path: Seq<char>) -> bool {
    forall|j: int| 0 <= j < paths.len() ==> !same_path(#[trigger] paths[j], path)
}

/// Where `path` is found in `paths`: the first index that holds the same
/// path, or nothing.
pub open spec fn position(paths: Seq<Seq<char>>, path: Seq<char>) -> Option<int> {
    if no_match(paths, path) {
        None
    } else {
        Some(choose|i: int| is_first_match(paths, path, i))
    }
}

/// A first match is the position, and it is the only one.
pub proof fn lemma_position_found(paths: Seq<Seq<char>>, path: Seq<char>, i: int)
    requires
        is_first_match(paths, path, i),
    ensures
        position(paths, path) == Some(i),
{
}

/// Where nothing matches, nothing is found; where something matches, the
/// position is its first match.
pub proof fn lemma_position(paths: Seq<Seq<char>>, path: Seq<char>)
    ensures
        match position(paths, path) {
            Some(i) => is_first_match(paths, path, i),
            None => no_match(paths, path),
        },
{
    if !no_match(paths, path) {
        let j = choose|j: int| 0 <= j < paths.len() && same_path(#[trigger] paths[j], path);
        lemma_first_match_exists(paths, path, j);
    }
}

/// A match at `j` means there is a first match at or before `j`.
proof fn lemma_first_match_exists(paths: Seq<Seq<char>>, path: Seq<char>, j: int)
    requires
        0 <= j < paths.len(),
        same_path(paths[j], path),
    ensures
        exists|i: int| is_first_match(paths, path, i),
    decreases j,
{
    if forall|k: int| 0 <= k < j ==> !same_path(#[trigger] paths[k], path) {
        assert(is_first_match(paths, path, j));
    } else {
        let k = choose|k: int| 0 <= k < j && same_path(#[trigger] paths[k], path);
        lemma_first_match_exists(paths, path, k);
    }
}

} // verus!
