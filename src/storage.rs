//! How destination paths are shown to the user.
use crate::text::{chars_of, collect_chars};
use vstd::prelude::*;

verus! {

/// What `dunce::simplified` makes of a path, written as text.
pub uninterp spec fn simplified_text(p: Seq<char>) -> Seq<char>;

/// Relies on `dunce::simplified`, which turns a Windows UNC path into its plain
/// form where that is safe and hands any other path back unchanged; it does no I/O.
#[verifier::external_body]
fn dunce_simplified(path: &str) -> (r: String)
    ensures
        r@ == simplified_text(path@),
{
    dunce::simplified(std::path::Path::new(path)).to_string_lossy().to_string()
}

/// A path in its most widely understood form.
pub fn simplify_path(path: &str) -> (r: String)
    ensures
        r@ == simplified_text(path@),
{
    dunce_simplified(path)
}

/// The text `~/`.
pub open spec fn home_mark() -> Seq<char> {
    seq!['~', '/']
}

pub open spec fn is_absolute_text(p: Seq<char>) -> bool {
    p.len() > 0 && p[0] == '/'
}

/// The part of `p` below `home`, when `p` is `home` itself or lies under it.
pub open spec fn below_home(p: Seq<char>, home: Seq<char>) -> Option<Seq<char>> {
    if 0 < home.len() <= p.len() && p.take(home.len() as int) == home {
        if p.len() == home.len() {
            Some(Seq::<char>::empty())
        } else if p[home.len() as int] == '/' {
            Some(p.skip(home.len() as int + 1))
        } else if home.last() == '/' {
            Some(p.skip(home.len() as int))
        } else {
            None
        }
    } else {
        None
    }
}

/// A path shown relative to the home directory: a path under `home` and a
/// relative path are written after `~/`, any other path as it is.
pub open spec fn home_relative(p: Seq<char>, home: Seq<char>) -> Seq<char> {
    match below_home(p, home) {
        Some(rest) => home_mark() + rest,
        None => if is_absolute_text(p) {
            p
        } else {
            home_mark() + p
        },
    }
}

/// The friendly form of a path that was already simplified.
pub fn home_relative_text(path: &str, home: &str) -> (r: String)
    ensures
        r@ == home_relative(path@, home@),
{
    let p = chars_of(path);
    let h = chars_of(home);
    let plen = p.len();
    let hlen = h.len();
    let mut prefix = 0 < hlen && hlen <= plen;
    let mut i: usize = 0;
    while prefix && i < hlen
        invariant
            p@ == path@,
            h@ == home@,
            hlen == h@.len(),
            plen == p@.len(),
            prefix ==> 0 < hlen <= plen,
            i <= hlen,
            prefix ==> p@.take(i as int) == h@.take(i as int),
            !prefix ==> !(0 < hlen <= plen && p@.take(hlen as int) == h@),
        decreases hlen - i,
    {
        if p[i] != h[i] {
            prefix = false;
            assert(p@.take(hlen as int)[i as int] != h@[i as int]);
        } else {
            assert(p@.take(i + 1) =~= p@.take(i as int).push(p@[i as int]));
            assert(h@.take(i + 1) =~= h@.take(i as int).push(h@[i as int]));
        }
        i = i + 1;
    }
    if prefix {
        assert(h@.take(hlen as int) =~= h@);
    }
    let mut out: Vec<char> = Vec::new();
    let mut start: usize = 0;
    let mut keep_whole = false;
    if prefix && plen == hlen {
        start = plen;
    } else if prefix && p[hlen] == '/' {
        start = hlen + 1;
    } else if prefix && h[hlen - 1] == '/' {
        start = hlen;
    } else if plen > 0 && p[0] == '/' {
        keep_whole = true;
    }
    if !keep_whole {
        out.push('~');
        out.push('/');
    }
    let mut j: usize = start;
    let ghost base = out@;
    while j < plen
        invariant
            p@ == path@,
            plen == p@.len(),
            start <= j <= plen,
            out@ == base + p@.subrange(start as int, j as int),
        decreases plen - j,
    {
        out.push(p[j]);
        j = j + 1;
        assert(out@ =~= base + p@.subrange(start as int, j as int));
    }
    assert(p@.subrange(start as int, plen as int) =~= p@.skip(start as int));
    assert(p@.skip(0) =~= p@);
    collect_chars(&out)
}

/// A path as the user would like to read it: simplified, and relative to the
/// home directory where it lies under it.
pub fn friendly_path(path: &str, home: &str) -> (r: String)
    ensures
        r@ == home_relative(simplified_text(path@), home@),
{
    let simple = simplify_path(path);
    home_relative_text(simple.as_str(), home)
}

} // verus!
