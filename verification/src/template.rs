use vstd::prelude::*;

use crate::bytes::{bytes_of, copy_range, lit_bytes, push_all};

verus! {

/// The pattern occurs in `s` at position `i`.
pub open spec fn occurs_at(s: Seq<u8>, pat: Seq<u8>, i: int) -> bool {
    0 <= i && i + pat.len() <= s.len() && s.subrange(i, i + pat.len()) == pat
}

/// The pattern occurs somewhere in `s`.
pub open spec fn contains_pat(s: Seq<u8>, pat: Seq<u8>) -> bool {
    exists|i: int| occurs_at(s, pat, i)
}

/// The tail of `s` from `i` on, with every occurrence of `pat` replaced by
/// `rep`, scanning left to right without overlap.
pub open spec fn replace_from(s: Seq<u8>, pat: Seq<u8>, rep: Seq<u8>, i: int) -> Seq<u8>
    decreases s.len() - i,
{
    if !(0 <= i <= s.len()) {
        Seq::empty()
    } else if pat.len() == 0 || i + pat.len() > s.len() {
        s.subrange(i, s.len() as int)
    } else if s.subrange(i, i + pat.len()) == pat {
        rep + replace_from(s, pat, rep, i + pat.len())
    } else {
        seq![s[i]] + replace_from(s, pat, rep, i + 1)
    }
}

/// `s` with every occurrence of `pat` replaced by `rep`.
pub open spec fn replace_spec(s: Seq<u8>, pat: Seq<u8>, rep: Seq<u8>) -> Seq<u8> {
    replace_from(s, pat, rep, 0)
}

proof fn lemma_replace_from_absent(s: Seq<u8>, pat: Seq<u8>, rep: Seq<u8>, i: int)
    requires
        pat.len() > 0,
        0 <= i <= s.len(),
        forall|k: int| #[trigger] occurs_at(s, pat, k) ==> k < i,
    ensures
        replace_from(s, pat, rep, i) == s.subrange(i, s.len() as int),
    decreases s.len() - i,
{
    if i + pat.len() > s.len() {
    } else if s.subrange(i, i + pat.len()) == pat {
        assert(occurs_at(s, pat, i));
    } else {
        lemma_replace_from_absent(s, pat, rep, i + 1);
        assert(seq![s[i]] + s.subrange(i + 1, s.len() as int) =~= s.subrange(i, s.len() as int));
    }
}

/// A marker that does not occur in the text is left verbatim: replacing it
/// changes nothing.
pub proof fn lemma_replace_absent(s: Seq<u8>, pat: Seq<u8>, rep: Seq<u8>)
    requires
        pat.len() > 0,
        !contains_pat(s, pat),
    ensures
        replace_spec(s, pat, rep) == s,
{
    assert forall|k: int| #[trigger] occurs_at(s, pat, k) implies k < 0 by {
        assert(contains_pat(s, pat));
    }
    lemma_replace_from_absent(s, pat, rep, 0);
    assert(s.subrange(0, s.len() as int) =~= s);
}

fn eq_at(s: &Vec<u8>, pat: &Vec<u8>, i: usize) -> (r: bool)
    requires
        i + pat@.len() <= s@.len(),
    ensures
        r <==> s@.subrange(i as int, i + pat@.len()) == pat@,
{
    let slen = s.len();
    let mut k: usize = 0;
    while k < pat.len()
        invariant
            k <= pat@.len(),
            i + pat@.len() <= s@.len(),
            slen == s@.len(),
            forall|j: int| 0 <= j < k ==> s@[i + j] == pat@[j],
        decreases pat@.len() - k,
    {
        if s[i + k] != pat[k] {
            proof {
                assert(s@.subrange(i as int, i + pat@.len())[k as int] != pat@[k as int]);
            }
            return false;
        }
        k = k + 1;
    }
    proof {
        assert(s@.subrange(i as int, i + pat@.len()) =~= pat@);
    }
    true
}

/// Replaces every occurrence of `pat` in `s` by `rep`, left to right.
pub fn replace_all(s: &Vec<u8>, pat: &Vec<u8>, rep: &Vec<u8>) -> (r: Vec<u8>)
    ensures
        r@ == replace_spec(s@, pat@, rep@),
{
    if pat.len() == 0 {
        let r = copy_range(s, 0, s.len());
        proof {
            assert(s@.subrange(0, s@.len() as int) =~= s@);
        }
        return r;
    }
    let mut out: Vec<u8> = Vec::new();
    let mut i: usize = 0;
    while s.len() >= pat.len() && i <= s.len() - pat.len()
        invariant
            pat@.len() >= 1,
            i <= s@.len(),
            out@ + replace_from(s@, pat@, rep@, i as int) == replace_spec(s@, pat@, rep@),
        decreases s@.len() - i,
    {
        let ghost prev = out@;
        if eq_at(s, pat, i) {
            push_all(&mut out, rep);
            proof {
                assert(out@ + replace_from(s@, pat@, rep@, i + pat@.len()) =~= prev + replace_from(
                    s@,
                    pat@,
                    rep@,
                    i as int,
                ));
            }
            i = i + pat.len();
        } else {
            out.push(s[i]);
            proof {
                assert(out@ + replace_from(s@, pat@, rep@, i + 1) =~= prev + replace_from(
                    s@,
                    pat@,
                    rep@,
                    i as int,
                ));
            }
            i = i + 1;
        }
    }
    let tail = copy_range(s, i, s.len());
    push_all(&mut out, &tail);
    proof {
        assert(replace_from(s@, pat@, rep@, i as int) == s@.subrange(i as int, s@.len() as int));
    }
    out
}

/// The placeholder marker for the stylesheet text.
pub open spec fn style_marker() -> Seq<u8> {
    bytes_of("<<<PUT THE STYLESHEET HERE>>>"@)
}

/// The placeholder marker for the rendered document body.
pub open spec fn content_marker() -> Seq<u8> {
    bytes_of("<<<PUT THE MAIN CONTENT HERE>>>"@)
}

/// The placeholder marker for the rendered header.
pub open spec fn header_marker() -> Seq<u8> {
    bytes_of("<<<PUT THE HEADER HERE>>>"@)
}

/// The placeholder marker for the favicon embed.
pub open spec fn favicon_marker() -> Seq<u8> {
    bytes_of("<<<PUT THE FAVICON HERE>>>"@)
}

/// The placeholder marker for the page title.
pub open spec fn title_marker() -> Seq<u8> {
    bytes_of("<<<PUT THE TITLE HERE>>>"@)
}

/// The placeholder marker for the page description.
pub open spec fn description_marker() -> Seq<u8> {
    bytes_of("<<<PUT THE DESCRIPTION HERE>>>"@)
}

/// The stylesheet placeholder marker as bytes.
pub fn style_marker_bytes() -> (r: Vec<u8>)
    ensures
        r@ == style_marker(),
{
    proof {
        reveal_strlit("<<<PUT THE STYLESHEET HERE>>>");
    }
    lit_bytes("<<<PUT THE STYLESHEET HERE>>>")
}

/// The body placeholder marker as bytes.
pub fn content_marker_bytes() -> (r: Vec<u8>)
    ensures
        r@ == content_marker(),
{
    proof {
        reveal_strlit("<<<PUT THE MAIN CONTENT HERE>>>");
    }
    lit_bytes("<<<PUT THE MAIN CONTENT HERE>>>")
}

/// The header placeholder marker as bytes.
pub fn header_marker_bytes() -> (r: Vec<u8>)
    ensures
        r@ == header_marker(),
{
    proof {
        reveal_strlit("<<<PUT THE HEADER HERE>>>");
    }
    lit_bytes("<<<PUT THE HEADER HERE>>>")
}

/// The favicon placeholder marker as bytes.
pub fn favicon_marker_bytes() -> (r: Vec<u8>)
    ensures
        r@ == favicon_marker(),
{
    proof {
        reveal_strlit("<<<PUT THE FAVICON HERE>>>");
    }
    lit_bytes("<<<PUT THE FAVICON HERE>>>")
}

/// The title placeholder marker as bytes.
pub fn title_marker_bytes() -> (r: Vec<u8>)
    ensures
        r@ == title_marker(),
{
    proof {
        reveal_strlit("<<<PUT THE TITLE HERE>>>");
    }
    lit_bytes("<<<PUT THE TITLE HERE>>>")
}

/// The description placeholder marker as bytes.
pub fn description_marker_bytes() -> (r: Vec<u8>)
    ensures
        r@ == description_marker(),
{
    proof {
        reveal_strlit("<<<PUT THE DESCRIPTION HERE>>>");
    }
    lit_bytes("<<<PUT THE DESCRIPTION HERE>>>")
}

/// The page skeleton with all six placeholder markers substituted, in the
/// fixed order: stylesheet, body, header, favicon, title, description.
pub open spec fn compose_spec(
    skeleton: Seq<u8>,
    css: Seq<u8>,
    body: Seq<u8>,
    header: Seq<u8>,
    favicon: Seq<u8>,
    title: Seq<u8>,
    description: Seq<u8>,
) -> Seq<u8> {
    let a = replace_spec(skeleton, style_marker(), css);
    let b = replace_spec(a, content_marker(), body);
    let c = replace_spec(b, header_marker(), header);
    let d = replace_spec(c, favicon_marker(), favicon);
    let e = replace_spec(d, title_marker(), title);
    replace_spec(e, description_marker(), description)
}

/// A skeleton in which none of the six recognized markers occurs is left
/// unchanged by composition, whatever the fragments: in particular, an
/// unrecognized marker-like token in such a skeleton survives verbatim.
pub proof fn lemma_compose_identity(
    skeleton: Seq<u8>,
    css: Seq<u8>,
    body: Seq<u8>,
    header: Seq<u8>,
    favicon: Seq<u8>,
    title: Seq<u8>,
    description: Seq<u8>,
)
    requires
        !contains_pat(skeleton, style_marker()),
        !contains_pat(skeleton, content_marker()),
        !contains_pat(skeleton, header_marker()),
        !contains_pat(skeleton, favicon_marker()),
        !contains_pat(skeleton, title_marker()),
        !contains_pat(skeleton, description_marker()),
    ensures
        compose_spec(skeleton, css, body, header, favicon, title, description) == skeleton,
{
    reveal_strlit("<<<PUT THE STYLESHEET HERE>>>");
    reveal_strlit("<<<PUT THE MAIN CONTENT HERE>>>");
    reveal_strlit("<<<PUT THE HEADER HERE>>>");
    reveal_strlit("<<<PUT THE FAVICON HERE>>>");
    reveal_strlit("<<<PUT THE TITLE HERE>>>");
    reveal_strlit("<<<PUT THE DESCRIPTION HERE>>>");
    lemma_replace_absent(skeleton, style_marker(), css);
    lemma_replace_absent(skeleton, content_marker(), body);
    lemma_replace_absent(skeleton, header_marker(), header);
    lemma_replace_absent(skeleton, favicon_marker(), favicon);
    lemma_replace_absent(skeleton, title_marker(), title);
    lemma_replace_absent(skeleton, description_marker(), description);
}

/// Substitutes the six named fragments for their placeholder markers in the
/// page skeleton. A marker that does not occur is simply not replaced, and
/// text that matches no marker is left verbatim.
pub fn compose(
    skeleton: &Vec<u8>,
    css: &Vec<u8>,
    body: &Vec<u8>,
    header: &Vec<u8>,
    favicon: &Vec<u8>,
    title: &Vec<u8>,
    description: &Vec<u8>,
) -> (r: Vec<u8>)
    ensures
        r@ == compose_spec(skeleton@, css@, body@, header@, favicon@, title@, description@),
{
    let a = replace_all(skeleton, &style_marker_bytes(), css);
    let b = replace_all(&a, &content_marker_bytes(), body);
    let c = replace_all(&b, &header_marker_bytes(), header);
    let d = replace_all(&c, &favicon_marker_bytes(), favicon);
    let e = replace_all(&d, &title_marker_bytes(), title);
    replace_all(&e, &description_marker_bytes(), description)
}

} // verus!
