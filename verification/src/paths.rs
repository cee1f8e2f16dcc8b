use vstd::prelude::*;

use crate::errors::R2Error;
use vstd::string::StrSliceExecFns;
use vstd::string::StringExecFns;

verus! {

/// The path a download writes to: the key joined onto the destination
/// directory, with exactly one separator between them.
pub open spec fn joined_path(dir: Seq<char>, key: Seq<char>) -> Seq<char> {
    if dir.len() > 0 && dir.last() == '/' {
        dir + key
    } else {
        dir + seq!['/'] + key
    }
}

/// Whether a path holds a separator at all.
pub open spec fn has_separator(s: Seq<char>) -> bool {
    exists|i: int| 0 <= i < s.len() && s[i] == '/'
}

/// Whether `p` is everything before the last separator of `s`.
pub open spec fn is_parent_of(p: Seq<char>, s: Seq<char>) -> bool {
    exists|i: int|
        0 <= i < s.len() && s[i] == '/' && p == s.take(i) && (forall|j: int|
            i < j < s.len() ==> s[j] != '/')
}

/// Joins a key onto a destination directory: the directory, one separator
/// unless the directory already ends in one, then the key -- separators
/// embedded in the key come along unchanged.
pub fn join_path(dir: &str, key: &str) -> (r: String)
    ensures
        r@ == joined_path(dir@, key@),
{
    let n = dir.unicode_len();
    let mut r = dir.to_owned();
    if n == 0 || dir.get_char(n - 1) != '/' {
        r.append("/");
        proof {
            reveal_strlit("/");
            assert(r@ =~= dir@ + seq!['/']);
        }
    }
    r.append(key);
    proof {
        assert(joined_path(dir@, key@) =~= r@);
    }
    r
}

/// Everything before the last separator of a path, or nothing when the
/// path has no separator at all.
pub fn parent_of(path: &str) -> (r: Option<String>)
    ensures
        r matches Some(p) ==> is_parent_of(p@, path@),
        r is None ==> !has_separator(path@),
{
    let n = path.unicode_len();
    let mut i = n;
    while i > 0
        invariant
            i <= n,
            n == path@.len(),
            forall|j: int| i <= j < n ==> path@[j] != '/',
        decreases i,
    {
        if path.get_char(i - 1) == '/' {
            let p = path.substring_char(0, i - 1).to_owned();
            proof {
                assert(p@ == path@.take(i - 1));
            }
            return Some(p);
        }
        i = i - 1;
    }
    None
}

/// What validating the destination of a download decides: a directory is
/// accepted, anything else is `InvalidDestination`.
pub fn destination_check(is_directory: bool) -> (r: Result<(), R2Error>)
    ensures
        is_directory ==> r == Ok::<(), R2Error>(()),
        !is_directory ==> r == Err::<(), R2Error>(R2Error::InvalidDestination),
{
    if is_directory {
        Ok(())
    } else {
        Err(R2Error::InvalidDestination)
    }
}

} // verus!
