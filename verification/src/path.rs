//! Paths as text, and the one operation the launcher needs on them: placing
//! a fragment below a base, so that the result never leaves the base.

use vstd::prelude::*;
use vstd::string::*;

verus! {

/// The character that separates the components of a path.
pub const SEPARATOR: char = '/';

/// Whether a path starts with a separator.
pub open spec fn is_absolute(path: Seq<char>) -> bool {
    path.len() > 0 && path[0] == SEPARATOR
}

/// The fragment without the separators it starts with.
pub open spec fn made_relative(fragment: Seq<char>) -> Seq<char>
    decreases fragment.len(),
{
    if is_absolute(fragment) {
        made_relative(fragment.drop_first())
    } else {
        fragment
    }
}

/// `fragment` below `base`: the fragment, without the separators it starts
/// with, is appended to the base, after a separator unless the base is empty
/// or already ends in one. A fragment is always taken as relative to the
/// base, whether or not it is written with a leading separator.
pub open spec fn joined(base: Seq<char>, fragment: Seq<char>) -> Seq<char> {
    if base.len() == 0 || base.last() == SEPARATOR {
        base + made_relative(fragment)
    } else {
        base.push(SEPARATOR) + made_relative(fragment)
    }
}

/// Places `fragment` below `base`.
pub fn join(base: &str, fragment: &str) -> (path: String)
    ensures
        path@ == joined(base@, fragment@),
{
    let len: usize = fragment.unicode_len();
    let mut start: usize = 0;
    assert(fragment@.subrange(0, len as int) =~= fragment@);
    while start < len && fragment.get_char(start) == SEPARATOR
        invariant
            start <= len,
            len == fragment@.len(),
            made_relative(fragment@) == made_relative(fragment@.subrange(start as int, len as int)),
        decreases len - start,
    {
        assert(fragment@.subrange(start as int, len as int).drop_first() =~= fragment@.subrange(
            start + 1,
            len as int,
        ));
        start += 1;
    }
    let rest = fragment.substring_char(start, len);
    assert(rest@ == made_relative(fragment@));

    let mut path = String::from_str(base);
    let base_len: usize = base.unicode_len();
    if base_len > 0 && base.get_char(base_len - 1) != SEPARATOR {
        proof {
            reveal_strlit("/");
        }
        path.append("/");
        assert(path@ == base@.push(SEPARATOR));
    }
    path.append(rest);
    path
}

} // verus!
