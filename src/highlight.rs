//! Which characters of a shown text match the query, and the runs they form.
use crate::text::{chars_of, collect_chars};
use vstd::prelude::*;

verus! {

/// What `char::to_lowercase` makes of a character.
pub uninterp spec fn lowercase_of(c: char) -> Seq<char>;

/// Relies on `char::to_lowercase`: the lowercase mapping of one character,
/// which depends on the character alone.
#[verifier::external_body]
fn lowercase_char(c: char) -> (r: String)
    ensures
        r@ == lowercase_of(c),
{
    c.to_lowercase().to_string()
}

/// The match flag of each key of the text: a key matches when it equals the
/// next query key not yet matched, taken greedily from the left; `k` query
/// keys are already matched.
pub open spec fn flags_from(text: Seq<Seq<char>>, query: Seq<Seq<char>>, k: nat) -> Seq<bool>
    decreases text.len(),
{
    if text.len() == 0 {
        Seq::empty()
    } else {
        let m = k < query.len() && text[0] == query[k as int];
        seq![m] + flags_from(
            text.skip(1),
            query,
            if m {
                k + 1
            } else {
                k
            },
        )
    }
}

/// The runs of equally flagged neighbouring characters, in order.
pub open spec fn runs_of(text: Seq<char>, flags: Seq<bool>) -> Seq<(bool, Seq<char>)>
    decreases text.len(),
{
    if text.len() == 0 {
        Seq::empty()
    } else {
        let prev = runs_of(text.drop_last(), flags);
        let f = flags[text.len() - 1];
        let c = text.last();
        if prev.len() > 0 && prev.last().0 == f {
            prev.update(prev.len() - 1, (f, prev.last().1.push(c)))
        } else {
            prev.push((f, seq![c]))
        }
    }
}

pub open spec fn key_views(v: Seq<String>) -> Seq<Seq<char>> {
    v.map_values(|s: String| s@)
}

pub open spec fn span_views(v: Seq<(bool, String)>) -> Seq<(bool, Seq<char>)> {
    v.map_values(|p: (bool, String)| (p.0, p.1@))
}

pub open spec fn run_views(v: Seq<(bool, Vec<char>)>) -> Seq<(bool, Seq<char>)> {
    v.map_values(|p: (bool, Vec<char>)| (p.0, p.1@))
}

/// The keys that characters are compared by.
pub open spec fn keys_of(s: Seq<char>) -> Seq<Seq<char>> {
    s.map_values(|c: char| lowercase_of(c))
}

/// The runs of `text` that match `query` case-insensitively and those that do not.
pub open spec fn highlighted(text: Seq<char>, query: Seq<char>) -> Seq<(bool, Seq<char>)> {
    runs_of(text, flags_from(keys_of(text), keys_of(query), 0))
}

proof fn flags_from_len(text: Seq<Seq<char>>, query: Seq<Seq<char>>, k: nat)
    ensures
        flags_from(text, query, k).len() == text.len(),
    decreases text.len(),
{
    if text.len() > 0 {
        let m = k < query.len() && text[0] == query[k as int];
        flags_from_len(text.skip(1), query, if m { k + 1 } else { k });
    }
}

/// The match flags for text keys against query keys (see `flags_from`).
pub fn match_flags(text_keys: &Vec<String>, query_keys: &Vec<String>) -> (r: Vec<bool>)
    ensures
        r@ == flags_from(
            key_views(text_keys@),
            key_views(query_keys@),
            0,
        ),
{
    let ghost tk = key_views(text_keys@);
    let ghost qk = key_views(query_keys@);
    let n = text_keys.len();
    let mut out: Vec<bool> = Vec::new();
    let mut k: usize = 0;
    let mut i: usize = 0;
    assert(tk.skip(0) =~= tk);
    assert(out@ + flags_from(tk, qk, 0) =~= flags_from(tk, qk, 0));
    while i < n
        invariant
            tk == key_views(text_keys@),
            qk == key_views(query_keys@),
            n == tk.len(),
            i <= n,
            k <= qk.len(),
            out@ + flags_from(tk.skip(i as int), qk, k as nat) == flags_from(tk, qk, 0),
        decreases n - i,
    {
        let ghost before = out@;
        let ghost rest = tk.skip(i as int);
        let ghost k0 = k as nat;
        let m = k < query_keys.len() && text_keys[i] == query_keys[k];
        out.push(m);
        proof {
            assert(rest[0] == tk[i as int]);
            assert(rest.skip(1) =~= tk.skip(i + 1));
        }
        if m {
            k = k + 1;
        }
        proof {
            assert(out@ + flags_from(tk.skip(i + 1), qk, k as nat) =~= before + flags_from(
                rest,
                qk,
                k0,
            ));
        }
        i = i + 1;
    }
    proof {
        assert(tk.skip(n as int) =~= Seq::<Seq<char>>::empty());
        assert(out@ =~= out@ + Seq::<bool>::empty());
    }
    out
}


/// The runs of equally flagged neighbouring characters of `text`.
pub fn group_runs(text: &Vec<char>, flags: &Vec<bool>) -> (r: Vec<(bool, Vec<char>)>)
    requires
        flags@.len() == text@.len(),
    ensures
        run_views(r@) == runs_of(text@, flags@),
{
    let n = text.len();
    let mut out: Vec<(bool, Vec<char>)> = Vec::new();
    let mut i: usize = 0;
    assert(text@.take(0) =~= Seq::<char>::empty());
    assert(run_views(out@) =~= Seq::<(bool, Seq<char>)>::empty());
    while i < n
        invariant
            n == text@.len(),
            flags@.len() == n,
            i <= n,
            run_views(out@) == runs_of(text@.take(i as int), flags@),
        decreases n - i,
    {
        let ghost prev = runs_of(text@.take(i as int), flags@);
        let f = flags[i];
        let c = text[i];
        proof {
            assert(text@.take(i + 1).drop_last() =~= text@.take(i as int));
            assert(text@.take(i + 1).last() == c);
        }
        let len = out.len();
        if len > 0 && out[len - 1].0 == f {
            let popped = out.pop();
            match popped {
                Some(last) => {
                    let (flag, chars) = last;
                    let mut chars = chars;
                    chars.push(c);
                    out.push((flag, chars));
                },
                None => {},
            }
            proof {
                assert(run_views(out@) =~= prev.update(
                    prev.len() - 1,
                    (f, prev.last().1.push(c)),
                ));
            }
        } else {
            let ghost old_out = out@;
            let mut one: Vec<char> = Vec::new();
            one.push(c);
            out.push((f, one));
            proof {
                assert(one@ =~= seq![c]);
                assert(out@ == old_out.push((f, one)));
                assert(run_views(out@) =~= prev.push(
                    (f, seq![c]),
                ));
            }
        }
        i = i + 1;
    }
    assert(text@.take(n as int) =~= text@);
    out
}

fn keys_for(chars: &Vec<char>) -> (r: Vec<String>)
    ensures
        key_views(r@) == keys_of(chars@),
{
    let n = chars.len();
    let mut out: Vec<String> = Vec::new();
    let mut i: usize = 0;
    while i < n
        invariant
            n == chars@.len(),
            i <= n,
            key_views(out@) == keys_of(chars@.take(i as int)),
            out@.len() == i,
        decreases n - i,
    {
        let ghost old_out = out@;
        let key = lowercase_char(chars[i]);
        out.push(key);
        proof {
            assert(out@ == old_out.push(key));
            assert(chars@.take(i + 1) =~= chars@.take(i as int).push(chars@[i as int]));
            assert forall|j: int| 0 <= j < i + 1 implies #[trigger] key_views(out@)[j]
                == keys_of(chars@.take(i + 1))[j] by {
                if j < i {
                    assert(key_views(old_out)[j] == keys_of(chars@.take(i as int))[j]);
                }
            }
            assert(key_views(out@) =~= keys_of(chars@.take(i + 1)));
        }
        i = i + 1;
    }
    assert(chars@.take(n as int) =~= chars@);
    out
}

/// The runs of `text` that match `input` case-insensitively (flag `true`),
/// and those that do not, for colouring the match in a list.
pub fn colorize_match(text: &str, input: &Vec<char>) -> (r: Vec<(bool, String)>)
    ensures
        span_views(r@) == highlighted(text@, input@),
{
    let chars = chars_of(text);
    let text_keys = keys_for(&chars);
    let query_keys = keys_for(input);
    let flags = match_flags(&text_keys, &query_keys);
    proof {
        flags_from_len(keys_of(chars@), keys_of(input@), 0);
    }
    let runs = group_runs(&chars, &flags);
    let ghost target = highlighted(text@, input@);
    let n = runs.len();
    let mut out: Vec<(bool, String)> = Vec::new();
    let mut i: usize = 0;
    while i < n
        invariant
            n == runs@.len(),
            i <= n,
            run_views(runs@) == target,
            span_views(out@) == target.take(i as int),
            out@.len() == i,
            target.len() == n,
        decreases n - i,
    {
        let run = &runs[i];
        let s = collect_chars(&run.1);
        let ghost old_out = out@;
        let item = (run.0, s);
        out.push(item);
        proof {
            assert(target[i as int] == (run.0, run.1@));
            assert(out@ == old_out.push(item));
            assert forall|j: int| 0 <= j < i + 1 implies #[trigger] span_views(out@)[j] == target.take(i + 1)[j] by {
                if j < i {
                    assert(span_views(old_out)[j] == target.take(
                        i as int,
                    )[j]);
                }
            }
            assert(span_views(out@) =~= target.take(i + 1));
        }
        i = i + 1;
    }
    assert(target.take(n as int) =~= target);
    out
}

} // verus!
