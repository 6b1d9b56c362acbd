use vstd::prelude::*;
use vstd::string::{StrSliceExecFns, StringExecFns};

verus! {

/// `s` with every occurrence of `pat` replaced by `rep`, scanning from the
/// left and never letting two occurrences overlap.
pub open spec fn replaced(s: Seq<char>, pat: Seq<char>, rep: Seq<char>) -> Seq<char>
    decreases s.len(),
{
    if s.len() == 0 {
        Seq::empty()
    } else if pat.len() > 0 && pat.is_prefix_of(s) {
        rep + replaced(s.skip(pat.len() as int), pat, rep)
    } else {
        seq![s[0]] + replaced(s.skip(1), pat, rep)
    }
}

/// Whether `pat` occurs in `s` starting at character `i`.
fn matches_at(s: &str, i: usize, pat: &str) -> (r: bool)
    requires
        i <= s@.len(),
    ensures
        r == pat@.is_prefix_of(s@.skip(i as int)),
{
    let n = s.unicode_len();
    let m = pat.unicode_len();
    if m > n - i {
        return false;
    }
    let mut j: usize = 0;
    while j < m
        invariant
            j <= m,
            m <= n - i,
            i <= n,
            n == s@.len(),
            m == pat@.len(),
            forall|k: int| 0 <= k < j ==> s@[i + k] == pat@[k],
        decreases m - j,
    {
        if s.get_char(i + j) != pat.get_char(j) {
            assert(s@.skip(i as int)[j as int] == s@[i + j]);
            return false;
        }
        j += 1;
    }
    assert(pat@ =~= s@.skip(i as int).subrange(0, m as int));
    true
}

/// Replaces every occurrence of `pat` in `s` by `rep`, left to right.
pub fn replace_all(s: &str, pat: &str, rep: &str) -> (r: String)
    requires
        pat@.len() > 0,
    ensures
        r@ == replaced(s@, pat@, rep@),
{
    let n = s.unicode_len();
    let m = pat.unicode_len();
    let mut out = String::new();
    let mut i: usize = 0;
    assert(s@.skip(0) =~= s@);
    assert(out@ + replaced(s@, pat@, rep@) =~= replaced(s@, pat@, rep@));
    while i < n
        invariant
            i <= n,
            n == s@.len(),
            m == pat@.len(),
            m > 0,
            out@ + replaced(s@.skip(i as int), pat@, rep@) == replaced(s@, pat@, rep@),
        decreases n - i,
    {
        let ghost rest = s@.skip(i as int);
        if matches_at(s, i, pat) {
            assert(rest.skip(m as int) =~= s@.skip(i + m));
            assert(replaced(rest, pat@, rep@) == rep@ + replaced(rest.skip(m as int), pat@, rep@));
            assert(out@ + rep@ + replaced(s@.skip(i + m), pat@, rep@) =~= out@ + (rep@
                + replaced(s@.skip(i + m), pat@, rep@)));
            out.append(rep);
            i = i + m;
        } else {
            let c = s.substring_char(i, i + 1);
            assert(rest.skip(1) =~= s@.skip(i + 1));
            assert(c@ =~= seq![rest[0]]);
            assert(out@ + c@ + replaced(s@.skip(i + 1), pat@, rep@) =~= out@ + (c@ + replaced(
                s@.skip(i + 1),
                pat@,
                rep@,
            )));
            out.append(c);
            i = i + 1;
        }
    }
    assert(s@.skip(n as int).len() == 0);
    assert(out@ =~= out@ + replaced(s@.skip(n as int), pat@, rep@));
    out
}

} // verus!
