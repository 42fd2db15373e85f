//! Verified text search and substitution.
//!
//! The badge cache serves a count by replacing every occurrence of the
//! asterisk padding placeholder in a cached SVG template with the decimal
//! count, and the store error classifier looks for marker substrings in
//! server error messages. Both are pinned down here as functions on
//! character sequences.

use vstd::prelude::*;
use vstd::string::StrSliceExecFns;
use vstd::string::StringExecFns;

verus! {

/// `pat` occurs in `t` at position `i`.
pub open spec fn matches_at(t: Seq<char>, pat: Seq<char>, i: int) -> bool {
    0 <= i && i + pat.len() <= t.len() && t.subrange(i, i + pat.len() as int) == pat
}

/// `pat` occurs somewhere in `t`.
pub open spec fn contains_seq(t: Seq<char>, pat: Seq<char>) -> bool {
    exists|i: int| matches_at(t, pat, i)
}

/// `t` with every occurrence of `pat` replaced by `rep`, scanning left to
/// right without overlap: exactly what serving a cached badge template does
/// to the padding placeholder. An empty pattern replaces nothing.
pub open spec fn replaced(t: Seq<char>, pat: Seq<char>, rep: Seq<char>) -> Seq<char>
    decreases t.len(),
{
    if pat.len() == 0 || t.len() < pat.len() {
        t
    } else if t.subrange(0, pat.len() as int) == pat {
        rep + replaced(t.skip(pat.len() as int), pat, rep)
    } else {
        seq![t[0]] + replaced(t.skip(1), pat, rep)
    }
}

/// Whether `pat` occurs in `t` at character position `i`.
fn check_match_at(t: &str, pat: &str, i: usize, t_len: usize, pat_len: usize) -> (b: bool)
    requires
        t_len == t@.len(),
        pat_len == pat@.len(),
        i + pat_len <= t_len,
    ensures
        b == matches_at(t@, pat@, i as int),
{
    let mut j: usize = 0;
    while j < pat_len
        invariant
            0 <= j <= pat_len,
            t_len == t@.len(),
            pat_len == pat@.len(),
            i + pat_len <= t_len,
            forall|k: int| 0 <= k < j ==> t@[i + k] == pat@[k],
        decreases pat_len - j,
    {
        if t.get_char(i + j) != pat.get_char(j) {
            proof {
                assert(t@.subrange(i as int, i + pat@.len() as int)[j as int] == t@[i + j]);
            }
            return false;
        }
        j = j + 1;
    }
    proof {
        assert(t@.subrange(i as int, i + pat@.len() as int) =~= pat@);
    }
    true
}

/// Whether `pat` occurs anywhere in `t`.
pub fn contains_str(t: &str, pat: &str) -> (b: bool)
    ensures
        b == contains_seq(t@, pat@),
{
    let t_len = t.unicode_len();
    let pat_len = pat.unicode_len();
    if pat_len > t_len {
        proof {
            assert(forall|i: int| !matches_at(t@, pat@, i));
        }
        return false;
    }
    if pat_len == 0 {
        proof {
            assert(t@.subrange(0, 0) =~= pat@);
            assert(matches_at(t@, pat@, 0));
        }
        return true;
    }
    let mut i: usize = 0;
    while i <= t_len - pat_len
        invariant
            t_len == t@.len(),
            pat_len == pat@.len(),
            1 <= pat_len <= t_len,
            0 <= i <= t_len - pat_len + 1,
            forall|k: int| 0 <= k < i ==> !matches_at(t@, pat@, k),
        decreases t_len - i,
    {
        if check_match_at(t, pat, i, t_len, pat_len) {
            return true;
        }
        i = i + 1;
    }
    proof {
        assert(forall|k: int| k >= i ==> !matches_at(t@, pat@, k));
    }
    false
}

/// `t` with every occurrence of `pat` replaced by `rep`.
pub fn replace_all(t: &str, pat: &str, rep: &str) -> (r: String)
    requires
        pat@.len() >= 1,
    ensures
        r@ == replaced(t@, pat@, rep@),
{
    let t_len = t.unicode_len();
    let pat_len = pat.unicode_len();
    let mut r = String::new();
    let mut i: usize = 0;
    proof {
        assert(t@.skip(0) =~= t@);
        assert(Seq::<char>::empty() + replaced(t@, pat@, rep@) =~= replaced(t@, pat@, rep@));
    }
    while i < t_len
        invariant
            t_len == t@.len(),
            pat_len == pat@.len(),
            pat_len >= 1,
            0 <= i <= t_len,
            replaced(t@, pat@, rep@) == r@ + replaced(t@.skip(i as int), pat@, rep@),
        decreases t_len - i,
    {
        let ghost rest = t@.skip(i as int);
        if pat_len <= t_len - i && check_match_at(t, pat, i, t_len, pat_len) {
            proof {
                assert(rest.subrange(0, pat@.len() as int) =~= t@.subrange(
                    i as int,
                    i + pat@.len() as int,
                ));
                assert(rest.skip(pat@.len() as int) =~= t@.skip(i + pat@.len() as int));
                assert(replaced(rest, pat@, rep@) == rep@ + replaced(
                    t@.skip(i + pat@.len() as int),
                    pat@,
                    rep@,
                ));
            }
            r.append(rep);
            i = i + pat_len;
            proof {
                assert(replaced(t@, pat@, rep@) == r@ + replaced(t@.skip(i as int), pat@, rep@));
            }
        } else {
            proof {
                if i + pat@.len() <= t@.len() {
                    assert(rest.subrange(0, pat@.len() as int) =~= t@.subrange(
                        i as int,
                        i + pat@.len() as int,
                    ));
                    assert(rest.subrange(0, pat@.len() as int) != pat@);
                } else {
                    assert(rest.len() < pat@.len());
                }
                assert(rest.skip(1) =~= t@.skip(i + 1));
                assert(replaced(rest, pat@, rep@) == seq![t@[i as int]] + replaced(
                    t@.skip(i + 1),
                    pat@,
                    rep@,
                ));
            }
            let piece = t.substring_char(i, i + 1);
            proof {
                assert(piece@ =~= seq![t@[i as int]]);
            }
            r.append(piece);
            i = i + 1;
            proof {
                assert(replaced(t@, pat@, rep@) == r@ + replaced(t@.skip(i as int), pat@, rep@));
            }
        }
    }
    proof {
        assert(t@.skip(i as int) =~= Seq::<char>::empty());
        assert(replaced(Seq::<char>::empty(), pat@, rep@) == Seq::<char>::empty());
        assert(r@ =~= r@ + Seq::<char>::empty());
    }
    r
}

} // verus!
