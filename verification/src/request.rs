//! From a request to the object it asks for.

use vstd::prelude::*;
use vstd::string::StrSliceExecFns;

verus! {

/// The key of the object that a request path names: the path without its
/// leading slash. A path that does not begin with a slash is its own key.
pub open spec fn object_key_view(path: Seq<char>) -> Seq<char> {
    if path.len() > 0 && path[0] == '/' {
        path.subrange(1, path.len() as int)
    } else {
        path
    }
}

/// The key of the object that a request path names.
pub fn object_key(path: &str) -> (key: String)
    ensures
        key@ == object_key_view(path@),
{
    let length: usize = path.unicode_len();
    if length > 0 && path.get_char(0) == '/' {
        path.substring_char(1, length).to_owned()
    } else {
        path.to_owned()
    }
}

} // verus!
