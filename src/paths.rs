//! Path composition, done by camino on UTF-8 paths.
use vstd::prelude::*;

verus! {

/// Whether `p` starts at the root of the file system.
pub open spec fn is_absolute(p: Seq<char>) -> bool {
    p.len() > 0 && p[0] == '/'
}

/// `base` with `part` adjoined: an absolute `part` replaces `base`, an empty
/// `base` gives `part`, and otherwise one separator stands between them.
pub open spec fn path_join(base: Seq<char>, part: Seq<char>) -> Seq<char> {
    if is_absolute(part) {
        part
    } else if base.len() == 0 {
        part
    } else if base.last() == '/' {
        base + part
    } else {
        base + seq!['/'] + part
    }
}

/// Whether `p` is `root` or lies below it.
pub open spec fn is_under(p: Seq<char>, root: Seq<char>) -> bool {
    p == root || (p.len() > root.len() && p.subrange(0, root.len() as int) == root && (
    root.len() > 0 && (root.last() == '/' || p[root.len() as int] == '/')))
}

/// A single path component: not empty and without a separator.
pub open spec fn is_plain_name(n: Seq<char>) -> bool {
    n.len() > 0 && forall|i: int| 0 <= i < n.len() ==> n[i] != '/'
}

/// What `Utf8Path::parent` returns for a path.
pub uninterp spec fn parent_of(p: Seq<char>) -> Option<Seq<char>>;

/// Relies on camino's `Utf8Path::join` (which is `std::path::Path::join`):
/// an absolute argument replaces the path, and a separator is added only
/// where the path does not already end in one.
#[verifier::external_body]
pub(crate) fn join(base: &str, part: &str) -> (r: String)
    ensures
        r@ == path_join(base@, part@),
{
    camino::Utf8Path::new(base).join(part).into_string()
}

/// Relies on camino's `Utf8Path::parent`: the path without its last component,
/// or `None` for a root or an empty path.
#[verifier::external_body]
pub(crate) fn parent(p: &str) -> (r: Option<String>)
    ensures
        r matches Some(s) ==> parent_of(p@) == Some(s@),
        r is None ==> parent_of(p@) is None,
{
    camino::Utf8Path::new(p).parent().map(|d| d.as_str().to_string())
}

/// Joining a plain name onto a non-empty path gives a path below it.
pub proof fn lemma_join_under(base: Seq<char>, name: Seq<char>)
    requires
        base.len() > 0,
        is_plain_name(name),
    ensures
        is_under(path_join(base, name), base),
        path_join(base, name) != base,
{
    let j = path_join(base, name);
    if base.last() == '/' {
        assert(j.subrange(0, base.len() as int) =~= base);
    } else {
        assert(j.subrange(0, base.len() as int) =~= base);
        assert(j[base.len() as int] == '/');
    }
}

/// Whatever lies below `mid`, which lies below `root`, lies below `root`.
pub proof fn lemma_under_trans(p: Seq<char>, mid: Seq<char>, root: Seq<char>)
    requires
        is_under(p, mid),
        is_under(mid, root),
    ensures
        is_under(p, root),
{
    if p != mid && mid != root {
        assert(p.subrange(0, root.len() as int) =~= mid.subrange(0, root.len() as int));
        if root.last() != '/' {
            assert(p[root.len() as int] == p.subrange(0, mid.len() as int)[root.len() as int]);
        }
    }
}

} // verus!
