//! File-system paths as the bridge handles them: text, taken apart and put
//! together by the standard library's path rules for the platform the
//! library is built for.

use vstd::prelude::*;

verus! {

/// What `std::path::Path::parent` returns for the path written `path`: the
/// path without its last component, or `None` where there is none to drop.
pub uninterp spec fn parent_of(path: Seq<char>) -> Option<Seq<char>>;

/// What `std::path::Path::with_file_name` returns for the path written
/// `path` and the file name `name`: the path with its last component
/// replaced by `name`.
pub uninterp spec fn with_file_name_of(path: Seq<char>, name: Seq<char>) -> Seq<char>;

/// The text of an optional string.
pub open spec fn text_of(value: Option<String>) -> Option<Seq<char>> {
    match value {
        Some(text) => Some(text@),
        None => None,
    }
}

/// The text on either side of a result that holds strings.
pub open spec fn outcome_text(value: Result<String, String>) -> Result<Seq<char>, Seq<char>> {
    match value {
        Ok(text) => Ok(text@),
        Err(cause) => Err(cause@),
    }
}

/// Calls `std::path::Path::parent` on `path`. Nothing is proved of it: the
/// contract only gives the answer its name, `parent_of`. The path is text, so
/// its parent is text too and the conversion back loses nothing.
#[verifier::external_body]
pub(crate) fn parent(path: &str) -> (dir: Option<String>)
    ensures
        text_of(dir) == parent_of(path@),
{
    match std::path::Path::new(path).parent() {
        Some(dir) => Some(dir.to_string_lossy().into_owned()),
        None => None,
    }
}

/// Calls `std::path::Path::with_file_name` on `path` and `name`. Nothing is
/// proved of it: the contract only gives the answer its name,
/// `with_file_name_of`. Both arguments are text, so the result is text too
/// and the conversion back loses nothing.
#[verifier::external_body]
pub(crate) fn with_file_name(path: &str, name: &str) -> (sibling: String)
    ensures
        sibling@ == with_file_name_of(path@, name@),
{
    std::path::Path::new(path).with_file_name(name).to_string_lossy().into_owned()
}

} // verus!
