use vstd::prelude::*;

use crate::bytes::{copy_range, push_all};

verus! {

/// A byte that may open a glyph token name.
pub open spec fn is_first_name_byte(b: u8) -> bool {
    (97 <= b <= 122) || b == 49 || b == 50 || b == 51 || b == 56 || b == 43 || b == 45
}

/// A byte that may continue a glyph token name.
pub open spec fn is_rest_name_byte(b: u8) -> bool {
    (97 <= b <= 122) || (48 <= b <= 57) || b == 95 || b == 45
}

/// The glyph that the substitution table assigns to a token name, if any.
pub uninterp spec fn glyph_of(name: Seq<u8>) -> Option<Seq<u8>>;

/// Relies on gh_emoji::get: the unicode glyph for a token name, looked up
/// in a fixed table, a function of the name alone.
#[verifier::external_body]
fn glyph_lookup(name: &Vec<u8>) -> (r: Option<Vec<u8>>)
    ensures
        match r {
            Some(v) => glyph_of(name@) == Some(v@),
            None => glyph_of(name@) == None::<Seq<u8>>,
        },
{
    let s = core::str::from_utf8(name).ok()?;
    Some(gh_emoji::get(s)?.as_bytes().to_vec())
}

/// The position right after the last name byte of the run beginning at `j`.
pub open spec fn run_end(s: Seq<u8>, j: int) -> int
    decreases s.len() - j,
{
    if j < 0 || j >= s.len() {
        s.len() as int
    } else if is_rest_name_byte(s[j]) {
        run_end(s, j + 1)
    } else {
        j
    }
}

pub proof fn lemma_run_end(s: Seq<u8>, j: int)
    requires
        0 <= j <= s.len(),
    ensures
        j <= run_end(s, j) <= s.len(),
        forall|k: int| j <= k < run_end(s, j) ==> is_rest_name_byte(s[k]),
        run_end(s, j) == s.len() || !is_rest_name_byte(s[run_end(s, j)]),
    decreases s.len() - j,
{
    if j < s.len() && is_rest_name_byte(s[j]) {
        lemma_run_end(s, j + 1);
    }
}

pub proof fn lemma_run_end_eq(s: Seq<u8>, j0: int, j: int)
    requires
        0 <= j0 <= j <= s.len(),
        forall|k: int| j0 <= k < j ==> is_rest_name_byte(s[k]),
        j == s.len() || !is_rest_name_byte(s[j]),
    ensures
        run_end(s, j0) == j,
    decreases j - j0,
{
    if j0 < j {
        lemma_run_end_eq(s, j0 + 1, j);
    }
}

/// The index of the closing delimiter of a glyph token starting at `i`,
/// if the text at `i` has the shape of one.
pub open spec fn match_end(s: Seq<u8>, i: int) -> Option<int> {
    if 0 <= i && i + 1 < s.len() && s[i] == 58u8 && is_first_name_byte(s[i + 1]) {
        let e = run_end(s, i + 2);
        if e < s.len() && s[e] == 58u8 {
            Some(e)
        } else {
            None
        }
    } else {
        None
    }
}

/// A recognized glyph token starts at `i`: it has token shape and its name
/// is in the substitution table.
pub open spec fn glyph_token_at(s: Seq<u8>, i: int) -> bool {
    match match_end(s, i) {
        Some(e) => match glyph_of(s.subrange(i + 1, e)) {
            Some(_) => true,
            None => false,
        },
        None => false,
    }
}

/// The text holds no recognized glyph token.
pub open spec fn free_of_glyph_tokens(s: Seq<u8>) -> bool {
    forall|i: int| 0 <= i < s.len() ==> !glyph_token_at(s, i)
}

/// The substituted tail of `s` from position `i` on: recognized tokens are
/// replaced by their glyphs, token-shaped runs with unknown names are kept
/// whole, and every other byte is kept as it is.
pub open spec fn sub_from(s: Seq<u8>, i: int) -> Seq<u8>
    decreases s.len() - i,
    via sub_from_dec
{
    if i < 0 || i >= s.len() {
        Seq::empty()
    } else {
        match match_end(s, i) {
            Some(e) => match glyph_of(s.subrange(i + 1, e)) {
                Some(g) => g + sub_from(s, e + 1),
                None => s.subrange(i, e + 1) + sub_from(s, e + 1),
            },
            None => seq![s[i]] + sub_from(s, i + 1),
        }
    }
}

#[via_fn]
proof fn sub_from_dec(s: Seq<u8>, i: int) {
    if 0 <= i && i < s.len() {
        match match_end(s, i) {
            Some(e) => {
                lemma_run_end(s, i + 2);
            },
            None => {},
        }
    }
}

/// The whole text with all recognized glyph tokens substituted.
pub open spec fn substitute_spec(s: Seq<u8>) -> Seq<u8> {
    sub_from(s, 0)
}

proof fn lemma_sub_from_clean(s: Seq<u8>, i: int)
    requires
        free_of_glyph_tokens(s),
        0 <= i <= s.len(),
    ensures
        sub_from(s, i) == s.subrange(i, s.len() as int),
    decreases s.len() - i,
{
    if i >= s.len() {
        assert(sub_from(s, i) =~= s.subrange(i, s.len() as int));
    } else {
        match match_end(s, i) {
            Some(e) => {
                assert(!glyph_token_at(s, i));
                lemma_run_end(s, i + 2);
                lemma_sub_from_clean(s, e + 1);
                assert(s.subrange(i, e + 1) + s.subrange(e + 1, s.len() as int) =~= s.subrange(
                    i,
                    s.len() as int,
                ));
            },
            None => {
                lemma_sub_from_clean(s, i + 1);
                assert(seq![s[i]] + s.subrange(i + 1, s.len() as int) =~= s.subrange(
                    i,
                    s.len() as int,
                ));
            },
        }
    }
}

/// Substituting text that holds no recognized glyph token leaves it
/// unchanged, so substitution is idempotent on such text.
pub proof fn lemma_substitute_idempotent(t: Seq<u8>)
    requires
        free_of_glyph_tokens(t),
    ensures
        substitute_spec(t) == t,
        substitute_spec(substitute_spec(t)) == substitute_spec(t),
{
    lemma_sub_from_clean(t, 0);
    assert(t.subrange(0, t.len() as int) =~= t);
}

fn is_first_byte(b: u8) -> (r: bool)
    ensures
        r == is_first_name_byte(b),
{
    (97 <= b && b <= 122) || b == 49 || b == 50 || b == 51 || b == 56 || b == 43 || b == 45
}

fn is_rest_byte(b: u8) -> (r: bool)
    ensures
        r == is_rest_name_byte(b),
{
    (97 <= b && b <= 122) || (48 <= b && b <= 57) || b == 95 || b == 45
}

/// Replaces every recognized glyph token in the text by its glyph.
pub fn substitute(s: &Vec<u8>) -> (r: Vec<u8>)
    ensures
        r@ == substitute_spec(s@),
{
    let mut out: Vec<u8> = Vec::new();
    let mut i: usize = 0;
    while i < s.len()
        invariant
            i <= s@.len(),
            out@ + sub_from(s@, i as int) == substitute_spec(s@),
        decreases s@.len() - i,
    {
        let ghost prev = out@;
        let mut plain = true;
        if s[i] == 58 && i + 1 < s.len() && is_first_byte(s[i + 1]) {
            let mut j: usize = i + 2;
            while j < s.len() && is_rest_byte(s[j])
                invariant
                    i + 2 <= j <= s@.len(),
                    forall|k: int| i + 2 <= k < j ==> is_rest_name_byte(s@[k]),
                decreases s@.len() - j,
            {
                j = j + 1;
            }
            proof {
                lemma_run_end_eq(s@, i + 2, j as int);
            }
            if j < s.len() && s[j] == 58 {
                let name = copy_range(s, i + 1, j);
                match glyph_lookup(&name) {
                    Some(g) => {
                        push_all(&mut out, &g);
                    },
                    None => {
                        let kept = copy_range(s, i, j + 1);
                        push_all(&mut out, &kept);
                    },
                }
                proof {
                    assert(prev + sub_from(s@, i as int) == substitute_spec(s@));
                    assert(out@ + sub_from(s@, j + 1) =~= prev + sub_from(s@, i as int));
                }
                i = j + 1;
                plain = false;
            }
        }
        if plain {
            out.push(s[i]);
            proof {
                assert(match_end(s@, i as int) == None::<int>);
                assert(out@ + sub_from(s@, i + 1) =~= prev + sub_from(s@, i as int));
            }
            i = i + 1;
        }
    }
    proof {
        assert(sub_from(s@, i as int) =~= Seq::<u8>::empty());
        assert(out@ =~= out@ + Seq::<u8>::empty());
    }
    out
}

} // verus!
