use vstd::prelude::*;

use crate::bytes::{bytes_of, clone_bytes, copy_range, lit_bytes, push_all, spec_starts_with,
    starts_with, bytes_eq};
use crate::errors::{Error, ErrorSpec};

verus! {

/// A path joined onto a base directory: an absolute right side replaces the
/// base, otherwise the two are glued with a single separator.
pub open spec fn join_path_spec(base: Seq<u8>, rel: Seq<u8>) -> Seq<u8> {
    if rel.len() > 0 && rel[0] == 47 {
        rel
    } else if base.len() == 0 {
        rel
    } else if base[base.len() - 1] == 47 {
        base + rel
    } else {
        base + seq![47u8] + rel
    }
}

/// Joins a path onto a base directory.
pub fn join_path(base: &Vec<u8>, rel: &Vec<u8>) -> (r: Vec<u8>)
    ensures
        r@ == join_path_spec(base@, rel@),
{
    if rel.len() > 0 && rel[0] == 47 {
        return clone_bytes(rel);
    }
    if base.len() == 0 {
        return clone_bytes(rel);
    }
    let mut out = clone_bytes(base);
    if base[base.len() - 1] != 47 {
        out.push(47);
    }
    push_all(&mut out, rel);
    proof {
        assert(out@ =~= join_path_spec(base@, rel@));
    }
    out
}

/// The position right after the last separator in the path, or zero.
pub open spec fn split_pos(s: Seq<u8>) -> int
    decreases s.len(),
{
    if s.len() == 0 {
        0
    } else if s[s.len() - 1] == 47 {
        s.len() as int
    } else {
        split_pos(s.drop_last())
    }
}

pub proof fn lemma_split_pos_eq(s: Seq<u8>, p: int)
    requires
        0 <= p <= s.len(),
        forall|k: int| p <= k < s.len() ==> s[k] != 47,
        p == 0 || s[p - 1] == 47,
    ensures
        split_pos(s) == p,
    decreases s.len(),
{
    if s.len() == 0 {
    } else if s[s.len() - 1] == 47 {
        assert(p == s.len());
    } else {
        assert(p < s.len());
        assert(forall|k: int| p <= k < s.len() - 1 ==> s.drop_last()[k] != 47);
        lemma_split_pos_eq(s.drop_last(), p);
    }
}

/// The directory part of a path, up to and including the last separator.
pub open spec fn dir_of(s: Seq<u8>) -> Seq<u8> {
    s.subrange(0, split_pos(s))
}

/// The file name part of a path, after the last separator.
pub open spec fn file_name_of(s: Seq<u8>) -> Seq<u8> {
    s.subrange(split_pos(s), s.len() as int)
}

/// The index right after the last separator, computed on bytes.
pub fn split_index(s: &Vec<u8>) -> (r: usize)
    ensures
        r == split_pos(s@),
        r <= s@.len(),
{
    let mut i = s.len();
    while i > 0 && s[i - 1] != 47
        invariant
            i <= s@.len(),
            forall|k: int| i <= k < s@.len() ==> s@[k] != 47,
        decreases i,
    {
        i = i - 1;
    }
    proof {
        lemma_split_pos_eq(s@, i as int);
    }
    i
}

/// The directory part of a path, up to and including the last separator.
pub fn dir_part(s: &Vec<u8>) -> (r: Vec<u8>)
    ensures
        r@ == dir_of(s@),
{
    let p = split_index(s);
    copy_range(s, 0, p)
}

/// The file name part of a path, after the last separator.
pub fn file_name_part(s: &Vec<u8>) -> (r: Vec<u8>)
    ensures
        r@ == file_name_of(s@),
{
    let p = split_index(s);
    copy_range(s, p, s.len())
}

/// The position of the last byte `b` at or after `lo`, or `-1`.
pub open spec fn last_pos(s: Seq<u8>, b: u8, lo: int) -> int
    decreases s.len(),
{
    if s.len() == 0 || s.len() <= lo {
        -1
    } else if s[s.len() - 1] == b {
        s.len() - 1
    } else {
        last_pos(s.drop_last(), b, lo)
    }
}

pub proof fn lemma_last_pos_none(s: Seq<u8>, b: u8, lo: int)
    requires
        forall|k: int| lo <= k < s.len() && 0 <= k ==> s[k] != b,
    ensures
        last_pos(s, b, lo) == -1,
    decreases s.len(),
{
    if s.len() > 0 && s.len() > lo {
        assert(s[s.len() - 1] != b);
        assert(forall|k: int|
            lo <= k < s.len() - 1 && 0 <= k ==> s.drop_last()[k] == s[k] && s[k] != b);
        lemma_last_pos_none(s.drop_last(), b, lo);
    }
}

pub proof fn lemma_last_pos_eq(s: Seq<u8>, b: u8, lo: int, p: int)
    requires
        0 <= p < s.len(),
        lo <= p,
        s[p] == b,
        forall|k: int| p < k < s.len() ==> s[k] != b,
    ensures
        last_pos(s, b, lo) == p,
    decreases s.len(),
{
    if p == s.len() - 1 {
    } else {
        assert(s[s.len() - 1] != b);
        assert(forall|k: int| p < k < s.len() - 1 ==> s.drop_last()[k] == s[k] && s[k] != b);
        lemma_last_pos_eq(s.drop_last(), b, lo, p);
    }
}

/// The position of the extension dot of the file name of `s`, or `-1`: the
/// last dot strictly inside the file name part.
pub open spec fn ext_dot(s: Seq<u8>) -> int {
    last_pos(s, 46, split_pos(s) + 1)
}

/// The position of the extension dot, computed on bytes.
pub fn ext_dot_index(s: &Vec<u8>) -> (r: Option<usize>)
    ensures
        match r {
            Some(d) => ext_dot(s@) == d && split_pos(s@) < d && d < s@.len(),
            None => ext_dot(s@) == -1,
        },
{
    let sp = split_index(s);
    let mut i = s.len();
    while i > 0 && i - 1 > sp && s[i - 1] != 46
        invariant
            sp == split_pos(s@),
            i <= s@.len(),
            forall|k: int| i <= k < s@.len() ==> s@[k] != 46,
        decreases i,
    {
        i = i - 1;
    }
    if i > 0 && i - 1 > sp {
        proof {
            lemma_last_pos_eq(s@, 46, sp + 1, i - 1);
        }
        Some(i - 1)
    } else {
        proof {
            lemma_last_pos_none(s@, 46, sp + 1);
        }
        None
    }
}

/// The path with its extension replaced by `html`: everything from the
/// extension dot on is dropped, then `.html` is appended.
pub open spec fn with_html_ext_spec(s: Seq<u8>) -> Seq<u8> {
    let d = ext_dot(s);
    let stem = if d >= 0 {
        s.subrange(0, d)
    } else {
        s
    };
    stem + bytes_of(".html"@)
}

/// Replaces the path's extension with `html`.
pub fn with_html_ext(s: &Vec<u8>) -> (r: Vec<u8>)
    ensures
        r@ == with_html_ext_spec(s@),
{
    proof {
        reveal_strlit(".html");
    }
    let mut out = match ext_dot_index(s) {
        Some(d) => copy_range(s, 0, d),
        None => clone_bytes(s),
    };
    let suffix = lit_bytes(".html");
    push_all(&mut out, &suffix);
    out
}

/// The document lies under the root directory: the root is a prefix of
/// its path and ends at a path boundary — the root is empty, ends with a
/// separator itself, is the whole path, or is followed by a separator.
pub open spec fn under_root(root: Seq<u8>, doc: Seq<u8>) -> bool {
    spec_starts_with(doc, root) && (root.len() == 0 || root[root.len() - 1] == 47 || doc.len()
        == root.len() || doc[root.len() as int] == 47)
}

/// The mirrored output location of a document: its path relative to the
/// content root, rebased under the output root, with the extension
/// replaced by `html`. A document not under the content root has none.
pub open spec fn output_path_spec(content_root: Seq<u8>, output_root: Seq<u8>, doc: Seq<u8>) -> Option<
    Seq<u8>,
> {
    if under_root(content_root, doc) {
        let rest = doc.subrange(content_root.len() as int, doc.len() as int);
        let rel = if rest.len() > 0 && rest[0] == 47 {
            rest.subrange(1, rest.len() as int)
        } else {
            rest
        };
        Some(with_html_ext_spec(join_path_spec(output_root, rel)))
    } else {
        None
    }
}

/// Computes where the generated page for `doc` is written. A document that
/// does not lie under the content root is rejected.
pub fn output_path_for(content_root: &Vec<u8>, output_root: &Vec<u8>, doc: &Vec<u8>) -> (r: Result<
    Vec<u8>,
    Error,
>)
    ensures
        match r {
            Ok(p) => output_path_spec(content_root@, output_root@, doc@) == Some(p@),
            Err(e) => output_path_spec(content_root@, output_root@, doc@) == None::<Seq<u8>>
                && e@ == ErrorSpec::StripPrefix(doc@),
        },
{
    let rl = content_root.len();
    let boundary = rl == 0 || content_root[rl - 1] == 47 || doc.len() == rl || (doc.len() > rl
        && doc[rl] == 47);
    if !(starts_with(doc, content_root) && boundary) {
        return Err(Error::StripPrefix(clone_bytes(doc)));
    }
    let mut from = content_root.len();
    if from < doc.len() && doc[from] == 47 {
        from = from + 1;
    }
    let rel = copy_range(doc, from, doc.len());
    proof {
        let rest = doc@.subrange(content_root@.len() as int, doc@.len() as int);
        if rest.len() > 0 && rest[0] == 47 {
            assert(rel@ =~= rest.subrange(1, rest.len() as int));
        } else {
            assert(rel@ =~= rest);
        }
    }
    let joined = join_path(output_root, &rel);
    Ok(with_html_ext(&joined))
}

/// The file name has extension `md`, compared without regard to ASCII case.
pub open spec fn is_markdown_path_spec(s: Seq<u8>) -> bool {
    let d = ext_dot(s);
    d >= 0 && s.len() - d == 3 && (s[d + 1] == 109 || s[d + 1] == 77) && (s[d + 2] == 100 || s[d
        + 2] == 68)
}

/// True when the path names a markup document: its extension is `md` in
/// any ASCII case.
pub fn is_markdown_path(s: &Vec<u8>) -> (r: bool)
    ensures
        r == is_markdown_path_spec(s@),
{
    match ext_dot_index(s) {
        Some(d) => {
            s.len() - d == 3 && (s[d + 1] == 109 || s[d + 1] == 77) && (s[d + 2] == 100 || s[d + 2]
                == 68)
        },
        None => false,
    }
}

/// Some path in the list names `index.html` inside the given directory.
pub open spec fn has_index(paths: Seq<Seq<u8>>, dir: Seq<u8>) -> bool {
    exists|k: int|
        0 <= k < paths.len() && dir_of(paths[k]) == dir && file_name_of(paths[k]) == bytes_of(
            "index.html"@,
        )
}

/// The directory holds at least one generated page but no `index.html`.
pub open spec fn needs_index(paths: Seq<Seq<u8>>, dir: Seq<u8>) -> bool {
    (exists|k: int| 0 <= k < paths.len() && dir_of(paths[k]) == dir) && !has_index(paths, dir)
}

fn dirs_contain(dirs: &Vec<Vec<u8>>, d: &Vec<u8>) -> (r: bool)
    ensures
        r <==> exists|j: int| 0 <= j < dirs@.len() && dirs@[j]@ == d@,
{
    let mut i: usize = 0;
    while i < dirs.len()
        invariant
            i <= dirs@.len(),
            forall|j: int| 0 <= j < i ==> dirs@[j]@ != d@,
        decreases dirs@.len() - i,
    {
        if bytes_eq(&dirs[i], d) {
            return true;
        }
        i = i + 1;
    }
    false
}

#[verifier::loop_isolation(false)]
fn scan_has_index(paths: &Vec<Vec<u8>>, dir: &Vec<u8>) -> (r: bool)
    ensures
        r == has_index(paths.deep_view(), dir@),
{
    proof {
        reveal_strlit("index.html");
        crate::bytes::lemma_deep_view_vecs(paths);
    }
    let index_name = lit_bytes("index.html");
    let mut k: usize = 0;
    while k < paths.len()
        invariant
            k <= paths@.len(),
            index_name@ == bytes_of("index.html"@),
            forall|j: int| 0 <= j < k
                ==> !(dir_of(paths.deep_view()[j]) == dir@ && file_name_of(paths.deep_view()[j])
                == bytes_of("index.html"@)),
        decreases paths@.len() - k,
    {
        let d = dir_part(&paths[k]);
        let f = file_name_part(&paths[k]);
        if bytes_eq(&d, dir) && bytes_eq(&f, &index_name) {
            proof {
                assert(dir_of(paths.deep_view()[k as int]) == dir@ && file_name_of(
                    paths.deep_view()[k as int],
                ) == bytes_of("index.html"@));
            }
            return true;
        }
        k = k + 1;
    }
    false
}

/// Collects every directory that holds a generated page but no
/// `index.html`, each reported once, in order of first appearance.
#[verifier::loop_isolation(false)]
pub fn missing_index_dirs(paths: &Vec<Vec<u8>>) -> (r: Vec<Vec<u8>>)
    ensures
        forall|j: int| 0 <= j < r@.len() ==> needs_index(paths.deep_view(), #[trigger] r@[j]@),
        forall|d: Seq<u8>|
            #[trigger] needs_index(paths.deep_view(), d) ==> exists|j: int|
                0 <= j < r@.len() && r@[j]@ == d,
        forall|j1: int, j2: int| 0 <= j1 < j2 < r@.len() ==> r@[j1]@ != r@[j2]@,
{
    let ghost pd = paths.deep_view();
    proof {
        crate::bytes::lemma_deep_view_vecs(paths);
    }
    let mut out: Vec<Vec<u8>> = Vec::new();
    let mut i: usize = 0;
    while i < paths.len()
        invariant
            i <= paths@.len(),
            pd == paths.deep_view(),
            forall|j: int| 0 <= j < out@.len() ==> needs_index(pd, #[trigger] out@[j]@),
            forall|k: int| 0 <= k < i && needs_index(pd, #[trigger] dir_of(pd[k])) ==> exists|j: int|
                0 <= j < out@.len() && out@[j]@ == dir_of(pd[k]),
            forall|j1: int, j2: int| 0 <= j1 < j2 < out@.len() ==> out@[j1]@ != out@[j2]@,
        decreases paths@.len() - i,
    {
        let d = dir_part(&paths[i]);
        let ghost out0 = out@;
        proof {
            assert(d@ == dir_of(pd[i as int]));
        }
        if !dirs_contain(&out, &d) {
            if !scan_has_index(paths, &d) {
                proof {
                    assert(0 <= i < pd.len() && dir_of(pd[i as int]) == d@);
                    assert(needs_index(pd, d@));
                }
                out.push(d);
                proof {
                    assert forall|k: int|
                        0 <= k < i && needs_index(pd, #[trigger] dir_of(pd[k])) implies exists|
                        j: int,
                    | 0 <= j < out@.len() && out@[j]@ == dir_of(pd[k]) by {
                        let j = choose|j: int| 0 <= j < out0.len() && out0[j]@ == dir_of(pd[k]);
                        assert(out@[j]@ == dir_of(pd[k]));
                    }
                    assert(out@[out@.len() - 1]@ == dir_of(pd[i as int]));
                }
            }
        }
        i = i + 1;
    }
    proof {
        assert forall|d: Seq<u8>| #[trigger] needs_index(pd, d) implies exists|j: int|
            0 <= j < out@.len() && out@[j]@ == d by {
            let k = choose|k: int| 0 <= k < pd.len() && dir_of(pd[k]) == d;
            assert(needs_index(pd, dir_of(pd[k])));
        }
    }
    out
}

} // verus!
