//! Joining a base directory with a path below it, with `/` as the separator.

use vstd::prelude::*;
use vstd::string::*;

verus! {

/// The separator between the components of a path.
pub const SEPARATOR: char = '/';

/// A path is absolute when it starts at the root.
pub open spec fn is_absolute(path: Seq<char>) -> bool {
    path.len() > 0 && path[0] == SEPARATOR
}

/// Whether `whole` ends with `tail`.
pub open spec fn ends_with(whole: Seq<char>, tail: Seq<char>) -> bool {
    tail.len() <= whole.len() && whole.subrange(whole.len() - tail.len(), whole.len() as int)
        == tail
}

/// `path` adjoined to `base`: an absolute `path` replaces `base`; otherwise
/// `path` follows `base`, with one separator between them unless `base` is
/// empty or already ends with one.
pub open spec fn join_spec(base: Seq<char>, path: Seq<char>) -> Seq<char> {
    if is_absolute(path) {
        path
    } else if base.len() == 0 || base.last() == SEPARATOR {
        base + path
    } else {
        base + seq![SEPARATOR] + path
    }
}

/// A joined path always ends with the path that was adjoined.
pub proof fn lemma_join_ends_with_path(base: Seq<char>, path: Seq<char>)
    ensures
        ends_with(join_spec(base, path), path),
{
    let joined = join_spec(base, path);
    assert(joined.subrange(joined.len() - path.len(), joined.len() as int) =~= path);
}

/// A relative path is joined below `base`: the result starts with `base`.
pub proof fn lemma_join_relative_starts_with_base(base: Seq<char>, path: Seq<char>)
    requires
        !is_absolute(path),
    ensures
        base.len() <= join_spec(base, path).len(),
        join_spec(base, path).subrange(0, base.len() as int) == base,
{
    assert(join_spec(base, path).subrange(0, base.len() as int) =~= base);
}

/// Adjoins `path` to `base`, as `std::path::Path::join` does where `/` is
/// the only separator.
pub fn join_path(base: &str, path: &str) -> (joined: String)
    ensures
        joined@ == join_spec(base@, path@),
{
    let path_len: usize = path.unicode_len();
    if path_len > 0 && path.get_char(0) == SEPARATOR {
        return String::from_str(path);
    }
    let base_len: usize = base.unicode_len();
    let mut joined = String::from_str(base);
    if base_len > 0 && base.get_char(base_len - 1) != SEPARATOR {
        proof {
            reveal_strlit("/");
        }
        joined.append("/");
        assert(joined@ =~= base@ + seq![SEPARATOR]);
    }
    joined.append(path);
    joined
}

} // verus!
