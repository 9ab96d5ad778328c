//! Small text helpers shared by the other modules.
use vstd::prelude::*;

verus! {

/// Relies on `String::from_iter` over `&char`: the characters are kept in order.
#[verifier::external_body]
pub(crate) fn collect_chars(chars: &Vec<char>) -> (r: String)
    ensures
        r@ == chars@,
{
    String::from_iter(chars.iter())
}

/// The characters of `s`, in order.
pub fn chars_of(s: &str) -> (r: Vec<char>)
    ensures
        r@ == s@,
{
    let n = s.unicode_len();
    let mut out: Vec<char> = Vec::new();
    let mut i: usize = 0;
    while i < n
        invariant
            n == s@.len(),
            i <= n,
            out@ == s@.take(i as int),
        decreases n - i,
    {
        out.push(s.get_char(i));
        i = i + 1;
        assert(out@ =~= s@.take(i as int));
    }
    assert(s@.take(n as int) =~= s@);
    out
}


/// `s` with every occurrence of `pat`, taken from the left without overlap,
/// replaced by `rep`.
pub open spec fn replaced(s: Seq<char>, pat: Seq<char>, rep: Seq<char>) -> Seq<char>
    decreases s.len(),
{
    if s.len() == 0 {
        Seq::empty()
    } else if 0 < pat.len() <= s.len() && s.take(pat.len() as int) == pat {
        rep + replaced(s.skip(pat.len() as int), pat, rep)
    } else {
        seq![s[0]] + replaced(s.skip(1), pat, rep)
    }
}

fn occurs_at(s: &Vec<char>, pat: &Vec<char>, i: usize) -> (r: bool)
    requires
        i < s@.len(),
    ensures
        r == (0 < pat@.len() <= s@.skip(i as int).len() && s@.skip(i as int).take(pat@.len() as int)
            == pat@),
{
    let n = s.len();
    let m = pat.len();
    if m == 0 || m > n - i {
        return false;
    }
    let mut j: usize = 0;
    while j < m
        invariant
            n == s@.len(),
            m == pat@.len(),
            i < n,
            0 < m <= n - i,
            j <= m,
            forall|k: int| 0 <= k < j ==> s@[i + k] == pat@[k],
        decreases m - j,
    {
        if s[i + j] != pat[j] {
            assert(s@.skip(i as int).take(m as int)[j as int] != pat@[j as int]);
            return false;
        }
        j = j + 1;
    }
    assert(s@.skip(i as int).take(m as int) =~= pat@);
    true
}

/// `s` with every occurrence of the non-empty `pat` replaced by `rep`.
pub fn replace_all(s: &str, pat: &str, rep: &str) -> (r: String)
    requires
        pat@.len() > 0,
    ensures
        r@ == replaced(s@, pat@, rep@),
{
    let sc = chars_of(s);
    let pc = chars_of(pat);
    let rc = chars_of(rep);
    let n = sc.len();
    let m = pc.len();
    let mut out: Vec<char> = Vec::new();
    let mut i: usize = 0;
    assert(sc@.skip(0) =~= sc@);
    assert(out@ + replaced(sc@, pc@, rc@) =~= replaced(sc@, pc@, rc@));
    while i < n
        invariant
            sc@ == s@,
            pc@ == pat@,
            rc@ == rep@,
            n == sc@.len(),
            m == pc@.len(),
            m > 0,
            i <= n,
            out@ + replaced(sc@.skip(i as int), pc@, rc@) == replaced(sc@, pc@, rc@),
        decreases n - i,
    {
        let ghost before = out@;
        let ghost rest = sc@.skip(i as int);
        if occurs_at(&sc, &pc, i) {
            let rn = rc.len();
            let mut k: usize = 0;
            while k < rn
                invariant
                    rc@ == rep@,
                    rn == rc@.len(),
                    k <= rn,
                    out@ == before + rc@.take(k as int),
                decreases rn - k,
            {
                out.push(rc[k]);
                k = k + 1;
                assert(out@ =~= before + rc@.take(k as int));
            }
            assert(rc@.take(rn as int) =~= rc@);
            assert(rest.skip(m as int) =~= sc@.skip(i + m));
            assert(out@ + replaced(sc@.skip(i + m), pc@, rc@) =~= before + (rc@ + replaced(
                rest.skip(m as int),
                pc@,
                rc@,
            )));
            i = i + m;
        } else {
            out.push(sc[i]);
            assert(rest.skip(1) =~= sc@.skip(i + 1));
            assert(out@ + replaced(sc@.skip(i + 1), pc@, rc@) =~= before + (seq![rest[0]]
                + replaced(rest.skip(1), pc@, rc@)));
            i = i + 1;
        }
    }
    assert(replaced(sc@.skip(n as int), pc@, rc@) =~= Seq::<char>::empty());
    assert(out@ =~= out@ + Seq::<char>::empty());
    collect_chars(&out)
}

} // verus!
