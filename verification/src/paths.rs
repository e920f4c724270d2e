//! Paths as text, by the rules of Unix-like systems: `/` parts the segments,
//! and a path is absolute when it begins with one.

use vstd::prelude::*;
use vstd::string::*;

verus! {

/// Whether `path` is absolute: it begins with `/`.
pub open spec fn is_absolute(path: Seq<char>) -> bool {
    path.len() > 0 && path[0] == '/'
}

/// Whether a separator has to go between `base` and what is adjoined to it:
/// `base` is not empty and does not end in `/`.
pub open spec fn needs_separator(base: Seq<char>) -> bool {
    base.len() > 0 && base.last() != '/'
}

/// `path` adjoined to `base`. An absolute `path` replaces `base`; otherwise
/// the two are put together, parted by one `/` unless `base` is empty or
/// ends in one already.
pub open spec fn joined(base: Seq<char>, path: Seq<char>) -> Seq<char> {
    if is_absolute(path) {
        path
    } else if needs_separator(base) {
        base + seq!['/'] + path
    } else {
        base + path
    }
}

/// Tells whether `path` is absolute.
pub fn is_absolute_path(path: &str) -> (absolute: bool)
    ensures
        absolute == is_absolute(path@),
{
    !path.is_empty() && path.get_char(0) == '/'
}

/// Adjoins `path` to `base`.
pub fn join(base: &str, path: &str) -> (whole: String)
    ensures
        whole@ == joined(base@, path@),
{
    if is_absolute_path(path) {
        return String::from_str(path);
    }
    let mut whole = String::from_str(base);
    let len = base.unicode_len();
    if len > 0 && base.get_char(len - 1) != '/' {
        proof {
            reveal_strlit("/");
        }
        whole.append("/");
    }
    whole.append(path);
    whole
}

/// What comes of joining is absolute exactly where one of the two parts
/// is: an absolute path stays as it is, and any other path leaves the
/// result as absolute as the base was.
pub proof fn law_joined_is_absolute_by_its_parts(base: Seq<char>, path: Seq<char>)
    ensures
        is_absolute(joined(base, path)) <==> is_absolute(path) || is_absolute(base),
{
}

} // verus!
