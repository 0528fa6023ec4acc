//! Logical asset paths and how they are made relative to the virtual root.

use vstd::prelude::*;
use vstd::string::*;

verus! {

/// The separator that starts an absolute-style logical path.
pub const SEPARATOR: char = '/';

/// The relative form of a logical path: one leading separator is removed if
/// there is one, and nothing else changes.
pub open spec fn normalized(path: Seq<char>) -> Seq<char> {
    if path.len() > 0 && path[0] == SEPARATOR {
        path.subrange(1, path.len() as int)
    } else {
        path
    }
}

/// Makes a logical path relative to the virtual root.
pub fn normalize(path: &str) -> (rel: String)
    ensures
        rel@ == normalized(path@),
{
    let n: usize = path.unicode_len();
    if n > 0 && path.get_char(0) == SEPARATOR {
        String::from_str(path.substring_char(1, n))
    } else {
        String::from_str(path)
    }
}

/// The path of the host that `std::path::Path::join` makes of a root
/// directory and a relative path, on the platform the library is built for.
pub uninterp spec fn joined_path(root: Seq<char>, rel: Seq<char>) -> Seq<char>;

/// `std::path::Path::join`, from text to text: the path below `root` that
/// `rel` names. Both parts are text, so the joined path is text too.
#[verifier::external_body]
pub(crate) fn join(root: &str, rel: &str) -> (path: String)
    ensures
        path@ == joined_path(root@, rel@),
{
    std::path::Path::new(root).join(rel).to_string_lossy().into_owned()
}

} // verus!
