//! Pure path arithmetic: re-anchoring a path recorded relative to a
//! lockfile's own directory at the directory the lockfile was loaded from.
//! Paths are plain strings; nothing here touches the filesystem.

use vstd::prelude::*;
use vstd::string::*;

verus! {

/// A recorded path with every leading `./` removed.
pub open spec fn strip_dot_slash(s: Seq<char>) -> Seq<char>
    decreases s.len(),
{
    if s.len() >= 2 && s[0] == '.' && s[1] == '/' {
        strip_dot_slash(s.subrange(2, s.len() as int))
    } else {
        s
    }
}

/// The absolute form of a path recorded relative to `dir`: leading `./`
/// segments are dropped, an already absolute path is kept as it is, and
/// otherwise the two are joined with a single `/`.
pub open spec fn join_path(dir: Seq<char>, rel: Seq<char>) -> Seq<char> {
    let r = strip_dot_slash(rel);
    if r.len() > 0 && r[0] == '/' {
        r
    } else if dir.len() > 0 && dir.last() == '/' {
        dir + r
    } else {
        dir + seq!['/'] + r
    }
}

/// Re-anchor a path recorded relative to a lockfile's directory at the
/// directory it was actually loaded from.
pub fn canonicalize_relative_path(directory: &str, relative: &str) -> (r: String)
    ensures
        r@ == join_path(directory@, relative@),
{
    let mut rest_from: usize = 0;
    let n: usize = relative.unicode_len();
    proof {
        assert(relative@.subrange(0, n as int) =~= relative@);
    }
    while rest_from < n && rest_from + 1 < n && relative.get_char(rest_from) == '.'
        && relative.get_char(rest_from + 1) == '/'
        invariant
            rest_from <= n,
            n == relative@.len(),
            strip_dot_slash(relative@) == strip_dot_slash(
                relative@.subrange(rest_from as int, n as int),
            ),
        decreases n - rest_from,
    {
        proof {
            let cur = relative@.subrange(rest_from as int, n as int);
            assert(cur.subrange(2, cur.len() as int) =~= relative@.subrange(
                rest_from + 2,
                n as int,
            ));
        }
        rest_from = rest_from + 2;
    }
    let rest: &str = relative.substring_char(rest_from, n);
    proof {
        assert(strip_dot_slash(rest@) == rest@);
        assert(rest@ == strip_dot_slash(relative@));
    }
    if rest.unicode_len() > 0 && rest.get_char(0) == '/' {
        return rest.to_owned();
    }
    let mut out: String = directory.to_owned();
    let dir_len: usize = directory.unicode_len();
    if dir_len == 0 || directory.get_char(dir_len - 1) != '/' {
        out.append("/");
        proof {
            reveal_strlit("/");
            assert("/"@ =~= seq!['/']);
        }
    }
    out.append(rest);
    proof {
        assert(out@ =~= join_path(directory@, relative@));
    }
    out
}

} // verus!
