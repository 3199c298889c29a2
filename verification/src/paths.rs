//! Path algebra on plain strings: absoluteness, joining a directory with
//! an entry name, and the parent of a path. Separators follow the Unix
//! convention (`/`).

use vstd::prelude::*;

verus! {

/// A path is absolute when it begins with the separator.
pub open spec fn is_absolute(p: Seq<char>) -> bool {
    p.len() > 0 && p[0] == '/'
}

/// `dir` joined with `name`: an absolute `name` replaces `dir` entirely,
/// an empty `dir` contributes nothing, and otherwise a separator is
/// inserted unless `dir` already ends with one.
pub open spec fn spec_join(dir: Seq<char>, name: Seq<char>) -> Seq<char> {
    if is_absolute(name) {
        name
    } else if dir.len() == 0 {
        name
    } else if dir[dir.len() - 1] == '/' {
        dir + name
    } else {
        dir + seq!['/'] + name
    }
}

/// Join a directory path with an entry name.
pub fn join_path(dir: &String, name: &String) -> (r: String)
    ensures
        r@ == spec_join(dir@, name@),
{
    let nlen = name.as_str().unicode_len();
    if nlen > 0 && name.as_str().get_char(0) == '/' {
        return name.clone();
    }
    let dlen = dir.as_str().unicode_len();
    if dlen == 0 {
        return name.clone();
    }
    let mut r = dir.clone();
    if dir.as_str().get_char(dlen - 1) != '/' {
        r.append("/");
        proof {
            reveal_strlit("/");
            assert(("/")@ =~= seq!['/']);
        }
    }
    r.append(name.as_str());
    r
}

/// `s` without its trailing separators.
pub open spec fn strip_trailing_slashes(s: Seq<char>) -> Seq<char>
    decreases s.len(),
{
    if s.len() > 0 && s[s.len() - 1] == '/' {
        strip_trailing_slashes(s.drop_last())
    } else {
        s
    }
}

/// The index just after the last separator of `s`, or `0` when `s`
/// holds none: the start of the final path component.
pub open spec fn after_last_slash(s: Seq<char>) -> int
    decreases s.len(),
{
    if s.len() == 0 {
        0
    } else if s[s.len() - 1] == '/' {
        s.len() as int
    } else {
        after_last_slash(s.drop_last())
    }
}

/// The parent of a path: the path without its final component and any
/// trailing separators. An empty path and the root have no parent; a
/// bare relative component has the empty path as parent (so a relative
/// origin is traversed along its own relative chain); the parent of a
/// top-level entry is the root.
pub open spec fn spec_parent(p: Seq<char>) -> Option<Seq<char>> {
    let t = strip_trailing_slashes(p);
    if t.len() == 0 {
        None
    } else {
        let a = after_last_slash(t);
        if a == 0 {
            Some(Seq::empty())
        } else {
            let head = strip_trailing_slashes(t.subrange(0, a - 1));
            if head.len() == 0 {
                Some(seq!['/'])
            } else {
                Some(head)
            }
        }
    }
}

/// Stripping trailing separators never lengthens a path, and what is
/// left never ends with a separator.
proof fn lemma_strip_trailing_slashes(s: Seq<char>)
    ensures
        strip_trailing_slashes(s).len() <= s.len(),
        strip_trailing_slashes(s).len() > 0 ==> strip_trailing_slashes(s)[strip_trailing_slashes(
            s,
        ).len() - 1] != '/',
    decreases s.len(),
{
    if s.len() > 0 && s[s.len() - 1] == '/' {
        lemma_strip_trailing_slashes(s.drop_last());
    }
}

/// The final component starts within the path; when the path does not
/// end with a separator, it starts strictly before the end.
proof fn lemma_after_last_slash(s: Seq<char>)
    ensures
        0 <= after_last_slash(s) <= s.len(),
        s.len() > 0 && s[s.len() - 1] != '/' ==> after_last_slash(s) <= s.len() - 1,
    decreases s.len(),
{
    if s.len() > 0 && s[s.len() - 1] != '/' {
        lemma_after_last_slash(s.drop_last());
    }
}

/// A parent is strictly shorter than its child, which bounds the length
/// of any ancestor chain.
pub proof fn lemma_parent_shorter(p: Seq<char>)
    ensures
        spec_parent(p) matches Some(q) ==> q.len() < p.len(),
{
    lemma_strip_trailing_slashes(p);
    let t = strip_trailing_slashes(p);
    if t.len() > 0 {
        lemma_after_last_slash(t);
        let a = after_last_slash(t);
        if a > 0 {
            lemma_strip_trailing_slashes(t.subrange(0, a - 1));
        }
    }
}

/// Compute the parent of a path, if it has one.
pub fn parent_of(p: &String) -> (r: Option<String>)
    ensures
        r.deep_view() == spec_parent(p@),
{
    let n = p.as_str().unicode_len();
    proof {
        assert(p@.subrange(0, n as int) =~= p@);
    }
    let mut i: usize = n;
    while i > 0 && p.as_str().get_char(i - 1) == '/'
        invariant
            i <= n,
            n == p@.len(),
            strip_trailing_slashes(p@) == strip_trailing_slashes(p@.subrange(0, i as int)),
        decreases i,
    {
        proof {
            assert(p@.subrange(0, i as int).drop_last() =~= p@.subrange(0, i - 1));
        }
        i -= 1;
    }
    proof {
        assert(strip_trailing_slashes(p@) == p@.subrange(0, i as int));
    }
    if i == 0 {
        return None;
    }
    let mut j: usize = i;
    while j > 0 && p.as_str().get_char(j - 1) != '/'
        invariant
            j <= i,
            i <= n,
            n == p@.len(),
            after_last_slash(p@.subrange(0, i as int)) == after_last_slash(
                p@.subrange(0, j as int),
            ),
        decreases j,
    {
        proof {
            assert(p@.subrange(0, j as int).drop_last() =~= p@.subrange(0, j - 1));
        }
        j -= 1;
    }
    if j == 0 {
        assert(after_last_slash(p@.subrange(0, i as int)) == 0);
        return Some(String::new());
    }
    assert(after_last_slash(p@.subrange(0, i as int)) == j);
    proof {
        assert(p@.subrange(0, i as int).subrange(0, j - 1) =~= p@.subrange(0, j - 1));
    }
    let mut k: usize = j - 1;
    while k > 0 && p.as_str().get_char(k - 1) == '/'
        invariant
            k <= j - 1,
            j <= n,
            n == p@.len(),
            strip_trailing_slashes(p@.subrange(0, j - 1)) == strip_trailing_slashes(
                p@.subrange(0, k as int),
            ),
        decreases k,
    {
        proof {
            assert(p@.subrange(0, k as int).drop_last() =~= p@.subrange(0, k - 1));
        }
        k -= 1;
    }
    proof {
        assert(strip_trailing_slashes(p@.subrange(0, j - 1)) == p@.subrange(0, k as int));
    }
    if k == 0 {
        proof {
            reveal_strlit("/");
            assert(("/")@ =~= seq!['/']);
        }
        return Some(String::from_str("/"));
    }
    Some(String::from_str(p.as_str().substring_char(0, k)))
}

/// Make a path absolute for display: an absolute path stands as it is,
/// a relative one is joined onto the working directory.
pub fn absolutize_fallback(p: &String, cwd: &String) -> (r: String)
    ensures
        is_absolute(p@) ==> r@ == p@,
        !is_absolute(p@) ==> r@ == spec_join(cwd@, p@),
{
    join_path(cwd, p)
}

} // verus!
