//! Resolving a changed path against the watched root into the name of its
//! parent directory and its file name.
use vstd::prelude::*;
use crate::event::PipelineError;

verus! {

/// The path of `path` relative to `base`, as `pathdiff::diff_paths` computes it.
pub uninterp spec fn relative_of(path: Seq<char>, base: Seq<char>) -> Option<Seq<char>>;

/// A plain path segment: not empty, no separator, and neither `.` nor `..`.
pub open spec fn seg_ok(s: Seq<char>) -> bool {
    &&& s.len() > 0
    &&& !s.contains('/')
    &&& s != seq!['.']
    &&& s != seq!['.', '.']
}

pub open spec fn segs_ok(segs: Seq<Seq<char>>) -> bool {
    forall|i: int| 0 <= i < segs.len() ==> seg_ok(#[trigger] segs[i])
}

/// Segments joined by `/`.
pub open spec fn join(segs: Seq<Seq<char>>) -> Seq<char>
    decreases segs.len(),
{
    if segs.len() == 0 {
        seq![]
    } else if segs.len() == 1 {
        segs[0]
    } else {
        join(segs.drop_last()) + seq!['/'] + segs.last()
    }
}

/// An absolute path that does not end in a separator.
pub open spec fn abs_root(base: Seq<char>) -> bool {
    base.len() > 0 && base[0] == '/' && base.last() != '/'
}

pub open spec fn opt_view(o: Option<String>) -> Option<Seq<char>> {
    match o {
        None => None,
        Some(s) => Some(s@),
    }
}

/// Relies on pathdiff::diff_paths: the path of `path` relative to `base`.
/// A path relative to itself is empty; a path made of `base`, a separator and
/// plain segments is those segments, joined by `/`.
#[verifier::external_body]
fn diff_paths(path: &str, base: &str) -> (r: Option<String>)
    ensures
        opt_view(r) == relative_of(path@, base@),
        path@ == base@ ==> opt_view(r) == Some(Seq::<char>::empty()),
        forall|segs: Seq<Seq<char>>|
            abs_root(base@) && segs.len() > 0 && segs_ok(segs) && path@ == base@ + seq!['/']
                + #[trigger] join(segs) ==> opt_view(r) == Some(join(segs)),
{
    match pathdiff::diff_paths(path, base) {
        Some(p) => Some(p.to_string_lossy().into_owned()),
        None => None,
    }
}

/// Index of the last separator in `s`, or -1 where there is none.
pub open spec fn last_slash(s: Seq<char>) -> int
    decreases s.len(),
{
    if s.len() == 0 {
        -1
    } else if s.last() == '/' {
        s.len() - 1
    } else {
        last_slash(s.drop_last())
    }
}

/// What a relative path resolves to: its parent directory (everything before
/// the last separator) and its file name (everything after it).
pub open spec fn split_relative(rel: Seq<char>) -> Result<(Seq<char>, Seq<char>), PipelineError> {
    let i = last_slash(rel);
    if i < 0 {
        Err(PipelineError::NoParent)
    } else if !seg_ok(rel.subrange(i + 1, rel.len() as int)) {
        Err(PipelineError::NoFilename)
    } else {
        Ok((rel.subrange(0, i), rel.subrange(i + 1, rel.len() as int)))
    }
}

/// What a changed path resolves to against the watched root.
pub open spec fn resolution(path: Seq<char>, root: Seq<char>) -> Result<
    (Seq<char>, Seq<char>),
    PipelineError,
> {
    match relative_of(path, root) {
        None => Err(PipelineError::NotRelative),
        Some(rel) => split_relative(rel),
    }
}

pub open spec fn pair_view(r: Result<(String, String), PipelineError>) -> Result<
    (Seq<char>, Seq<char>),
    PipelineError,
> {
    match r {
        Ok((d, f)) => Ok((d@, f@)),
        Err(e) => Err(e),
    }
}

proof fn lemma_last_slash_at(s: Seq<char>, j: int)
    requires
        -1 <= j < s.len(),
        j >= 0 ==> s[j] == '/',
        forall|k: int| j < k < s.len() ==> s[k] != '/',
    ensures
        last_slash(s) == j,
    decreases s.len(),
{
    if s.len() > 0 && s.len() - 1 != j {
        lemma_last_slash_at(s.drop_last(), j);
    }
}

fn is_plain_segment(s: &str) -> (r: bool)
    ensures
        r == seg_ok(s@),
{
    let n = s.unicode_len();
    let mut i: usize = 0;
    while i < n
        invariant
            n == s@.len(),
            i <= n,
            forall|k: int| 0 <= k < i ==> s@[k] != '/',
        decreases n - i,
    {
        if s.get_char(i) == '/' {
            assert(s@.contains('/'));
            return false;
        }
        i = i + 1;
    }
    assert(!s@.contains('/'));
    if n == 0 {
        false
    } else if n == 1 {
        let c = s.get_char(0);
        assert(c == '.' <==> s@ =~= seq!['.']);
        c != '.'
    } else if n == 2 {
        let c0 = s.get_char(0);
        let c1 = s.get_char(1);
        assert(c0 == '.' && c1 == '.' <==> s@ =~= seq!['.', '.']);
        !(c0 == '.' && c1 == '.')
    } else {
        true
    }
}

proof fn lemma_join_push(dir: Seq<Seq<char>>, f: Seq<char>)
    requires
        dir.len() > 0,
    ensures
        join(dir.push(f)) == join(dir) + seq!['/'] + f,
{
    assert(dir.push(f).drop_last() =~= dir);
}

/// A parent directory made of plain segments and a plain file name, joined,
/// split back into the two.
proof fn lemma_split_joined(dir: Seq<Seq<char>>, f: Seq<char>)
    requires
        dir.len() > 0,
        seg_ok(f),
    ensures
        split_relative(join(dir.push(f))) == Ok::<(Seq<char>, Seq<char>), PipelineError>(
            (join(dir), f),
        ),
{
    lemma_join_push(dir, f);
    let d = join(dir);
    let rel = d + seq!['/'] + f;
    let j = d.len() as int;
    assert forall|k: int| j < k < rel.len() implies rel[k] != '/' by {
        assert(rel[k] == f[k - j - 1]);
        if rel[k] == '/' {
            assert(f.contains('/'));
        }
    }
    lemma_last_slash_at(rel, j);
    assert(rel.subrange(j + 1, rel.len() as int) =~= f);
    assert(rel.subrange(0, j) =~= d);
}

/// Splits the path of `path` relative to `root` into its parent directory and
/// file name. A path equal to the root, or sitting directly in it, has no
/// owning subdirectory and fails with `NoParent`.
pub fn resolve_path(path: &str, root: &str) -> (r: Result<(String, String), PipelineError>)
    ensures
        pair_view(r) == resolution(path@, root@),
        path@ == root@ ==> r matches Err(PipelineError::NoParent),
        forall|dir: Seq<Seq<char>>, file: Seq<char>|
            abs_root(root@) && dir.len() > 0 && segs_ok(dir) && seg_ok(file) && path@ == root@
                + seq!['/'] + #[trigger] join(dir.push(file)) ==> pair_view(r) == Ok::<
                (Seq<char>, Seq<char>),
                PipelineError,
            >((join(dir), file)),
{
    let rel = diff_paths(path, root);
    proof {
        assert forall|dir: Seq<Seq<char>>, file: Seq<char>|
            abs_root(root@) && dir.len() > 0 && segs_ok(dir) && seg_ok(file) && path@ == root@
                + seq!['/'] + #[trigger] join(dir.push(file)) implies resolution(path@, root@)
            == Ok::<(Seq<char>, Seq<char>), PipelineError>((join(dir), file)) by {
            let segs = dir.push(file);
            assert forall|i: int| 0 <= i < segs.len() implies seg_ok(#[trigger] segs[i]) by {
                if i < dir.len() {
                    assert(segs[i] == dir[i]);
                }
            }
            assert(opt_view(rel) == Some(join(segs)));
            lemma_split_joined(dir, file);
        }
    }
    let rel = match rel {
        None => return Err(PipelineError::NotRelative),
        Some(rel) => rel,
    };
    let s = rel.as_str();
    let n = s.unicode_len();
    let mut i: usize = n;
    while i > 0
        invariant
            n == s@.len(),
            i <= n,
            forall|k: int| i <= k < n ==> s@[k] != '/',
        ensures
            i == 0 || s@[i - 1] == '/',
        decreases i,
    {
        if s.get_char(i - 1) == '/' {
            break;
        }
        i = i - 1;
    }
    if i == 0 {
        proof {
            lemma_last_slash_at(s@, -1);
        }
        return Err(PipelineError::NoParent);
    }
    proof {
        lemma_last_slash_at(s@, i - 1);
    }
    let parent = s.substring_char(0, i - 1);
    let file = s.substring_char(i, n);
    if !is_plain_segment(file) {
        return Err(PipelineError::NoFilename);
    }
    Ok((String::from_str(parent), String::from_str(file)))
}

} // verus!
