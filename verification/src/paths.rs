//! Workspace path construction and path safety.
//!
//! Every session owns one directory, `<base>/<session id>`, and every
//! client-supplied filename is resolved strictly under it. A filename is
//! accepted only when it cannot escape the workspace: it must be nonempty,
//! relative (no leading `/`), and free of `..`.

use vstd::prelude::*;

verus! {

/// Whether two consecutive dots occur anywhere in `s`.
pub open spec fn contains_dotdot(s: Seq<char>) -> bool {
    exists|i: int| 0 <= i && i + 1 < s.len() && #[trigger] s[i] == '.' && s[i + 1] == '.'
}

/// A client-supplied filename is safe when it is nonempty, does not start
/// with `/` (no absolute components), and contains no `..` anywhere, so the
/// resolved path cannot leave the workspace root.
pub open spec fn path_is_safe(s: Seq<char>) -> bool {
    s.len() > 0 && s[0] != '/' && !contains_dotdot(s)
}

/// The path `a/b`.
pub open spec fn slash_join(a: Seq<char>, b: Seq<char>) -> Seq<char> {
    a + "/"@ + b
}

/// Decides `path_is_safe` for a filename.
pub fn check_path_safe(name: &str) -> (r: bool)
    ensures
        r == path_is_safe(name@),
{
    let n = name.unicode_len();
    if n == 0 {
        return false;
    }
    if name.get_char(0) == '/' {
        return false;
    }
    let mut i: usize = 0;
    while i + 1 < n
        invariant
            n == name@.len(),
            i < n,
            forall|j: int| 0 <= j < i ==> !(#[trigger] name@[j] == '.' && name@[j + 1] == '.'),
        decreases n - i,
    {
        if name.get_char(i) == '.' && name.get_char(i + 1) == '.' {
            return false;
        }
        i = i + 1;
    }
    true
}

/// Joins `a` and `b` with a single `/`.
pub fn join_path(a: &str, b: &str) -> (p: String)
    ensures
        p@ == slash_join(a@, b@),
{
    let mut p = a.to_owned();
    p.append("/");
    p.append(b);
    p
}

/// Whether `path` is the directory `root` itself or lies under it:
/// `root` followed by `/` and at least one more character. Checked on
/// canonical paths, this is what keeps a resolved file inside its
/// session's workspace even when symlinks were involved.
pub open spec fn is_within_root(root: Seq<char>, path: Seq<char>) -> bool {
    ||| path == root
    ||| (path.len() > root.len() + 1 && path.subrange(0, root.len() as int) == root && path[
        root.len() as int
    ] == '/')
}

/// Decides `is_within_root` for a resolved path.
pub fn check_within_root(root: &str, path: &str) -> (r: bool)
    ensures
        r == is_within_root(root@, path@),
{
    let rl = root.unicode_len();
    let pl = path.unicode_len();
    if pl < rl {
        return false;
    }
    let mut i: usize = 0;
    while i < rl
        invariant
            rl == root@.len(),
            pl == path@.len(),
            pl >= rl,
            i <= rl,
            forall|j: int| 0 <= j < i ==> path@[j] == root@[j],
        decreases rl - i,
    {
        if path.get_char(i) != root.get_char(i) {
            proof {
                if path@.subrange(0, rl as int) == root@ {
                    assert(path@.subrange(0, rl as int)[i as int] == path@[i as int]);
                }
            }
            return false;
        }
        i = i + 1;
    }
    if pl == rl {
        proof {
            assert(path@ =~= root@);
        }
        return true;
    }
    if pl == rl + 1 {
        return false;
    }
    proof {
        assert(path@.subrange(0, rl as int) =~= root@);
    }
    path.get_char(rl) == '/'
}

/// Distinct sessions resolve every relative name to distinct host paths:
/// with the same base directory and session ids of equal length, the full
/// paths of the same filename in two different sessions never collide.
pub proof fn lemma_distinct_sessions_distinct_paths(
    base: Seq<char>,
    id1: Seq<char>,
    id2: Seq<char>,
    name: Seq<char>,
)
    requires
        id1.len() == id2.len(),
        id1 != id2,
    ensures
        slash_join(slash_join(base, id1), name) != slash_join(slash_join(base, id2), name),
{
    let p1 = slash_join(slash_join(base, id1), name);
    let p2 = slash_join(slash_join(base, id2), name);
    if p1 == p2 {
        assert forall|j: int| 0 <= j < id1.len() implies id1[j] == id2[j] by {
            let k = base.len() + "/"@.len() + j;
            assert(p1[k] == id1[j]);
            assert(p2[k] == id2[j]);
        }
        assert(id1 =~= id2);
    }
}

/// Modelling the host filesystem as a map from absolute path to content:
/// a `Put(f, c)` followed by a `Get(f)` in the same session returns `c`
/// byte-for-byte, because both commands resolve `f` to the same key.
pub proof fn lemma_put_then_get(
    files: Map<Seq<char>, Seq<u8>>,
    root: Seq<char>,
    f: Seq<char>,
    c: Seq<u8>,
)
    ensures
        files.insert(slash_join(root, f), c).contains_key(slash_join(root, f)),
        files.insert(slash_join(root, f), c)[slash_join(root, f)] == c,
{
}

/// A second `Put(f, c2)` overwrites: a later `Get(f)` returns `c2`.
pub proof fn lemma_put_overwrites(
    files: Map<Seq<char>, Seq<u8>>,
    root: Seq<char>,
    f: Seq<char>,
    c1: Seq<u8>,
    c2: Seq<u8>,
)
    ensures
        files.insert(slash_join(root, f), c1).insert(slash_join(root, f), c2)[slash_join(
            root,
            f,
        )] == c2,
{
}

/// Session isolation over the filesystem model: a file written in one
/// session is invisible in another session under the same relative name.
pub proof fn lemma_sessions_isolated(
    files: Map<Seq<char>, Seq<u8>>,
    base: Seq<char>,
    id1: Seq<char>,
    id2: Seq<char>,
    f: Seq<char>,
    c: Seq<u8>,
)
    requires
        id1.len() == id2.len(),
        id1 != id2,
    ensures
        files.insert(slash_join(slash_join(base, id1), f), c).contains_key(
            slash_join(slash_join(base, id2), f),
        ) == files.contains_key(slash_join(slash_join(base, id2), f)),
        files.contains_key(slash_join(slash_join(base, id2), f)) ==> files.insert(
            slash_join(slash_join(base, id1), f),
            c,
        )[slash_join(slash_join(base, id2), f)] == files[slash_join(slash_join(base, id2), f)],
{
    lemma_distinct_sessions_distinct_paths(base, id1, id2, f);
}

} // verus!
