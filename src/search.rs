//! Ranking bookmarks against a query with the skim fuzzy matcher.
use crate::bookmarks::{bookmarks_view, Bookmark, BookmarkView};
use crate::storage::{friendly_path, home_relative, simplified_text};
use fuzzy_matcher::FuzzyMatcher;
use vstd::prelude::*;

verus! {

/// The score that skim's default matcher gives `choice` against `pattern`.
pub uninterp spec fn skim_score(choice: Seq<char>, pattern: Seq<char>) -> Option<i64>;

/// Relies on `SkimMatcherV2::fuzzy_match` with the default configuration: the
/// score depends on the two texts alone, and `None` means no match.
#[verifier::external_body]
fn fuzzy_score(choice: &str, pattern: &str) -> (r: Option<i64>)
    ensures
        r == skim_score(choice@, pattern@),
{
    fuzzy_matcher::skim::SkimMatcherV2::default().fuzzy_match(choice, pattern)
}

/// A score that admits its item.
pub open spec fn positive(s: Option<i64>) -> bool {
    s matches Some(x) && x > 0
}

pub open spec fn score_value(s: Option<i64>) -> int {
    match s {
        Some(x) => x as int,
        None => 0,
    }
}

/// Item `i` is listed before item `j`: a higher score first, and on equal
/// scores the earlier item first.
pub open spec fn ranks_before(s: Seq<Option<i64>>, i: int, j: int) -> bool {
    score_value(s[i]) > score_value(s[j]) || (score_value(s[i]) == score_value(s[j]) && i < j)
}

/// `r` lists exactly the items with a positive score, best first, ties in
/// their input order.
pub open spec fn is_ranking(s: Seq<Option<i64>>, r: Seq<usize>) -> bool {
    &&& forall|k: int| 0 <= k < r.len() ==> #[trigger] r[k] < s.len() && positive(s[r[k] as int])
    &&& forall|i: int| 0 <= i < s.len() && positive(#[trigger] s[i]) ==> r.contains(i as usize)
    &&& forall|a: int, b: int|
        0 <= a < b < r.len() ==> ranks_before(s, #[trigger] r[a] as int, #[trigger] r[b] as int)
}

/// The text a bookmark is matched against: its name and its friendly destination.
pub open spec fn search_text(b: BookmarkView, home: Seq<char>) -> Seq<char> {
    b.name + seq![' '] + home_relative(simplified_text(b.dest), home)
}

/// The score of each bookmark against `pattern`.
pub open spec fn scores_for(bs: Seq<BookmarkView>, home: Seq<char>, pattern: Seq<char>) -> Seq<
    Option<i64>,
> {
    bs.map_values(|b: BookmarkView| skim_score(search_text(b, home), pattern))
}

fn score_at(scores: &Vec<Option<i64>>, i: usize) -> (r: i64)
    requires
        i < scores.len(),
    ensures
        r == score_value(scores@[i as int]),
{
    match scores[i] {
        Some(y) => y,
        None => 0,
    }
}

/// The indices of the items with a positive score, best first; equal scores
/// keep their input order.
pub fn rank_matches(scores: &Vec<Option<i64>>) -> (r: Vec<usize>)
    ensures
        is_ranking(scores@, r@),
{
    let ghost s = scores@;
    let n = scores.len();
    let mut r: Vec<usize> = Vec::new();
    let mut i: usize = 0;
    while i < n
        invariant
            s == scores@,
            n == s.len(),
            i <= n,
            forall|k: int| 0 <= k < r.len() ==> #[trigger] r[k] < i && positive(s[r[k] as int]),
            forall|j: int| 0 <= j < i && positive(#[trigger] s[j]) ==> r@.contains(j as usize),
            forall|a: int, b: int|
                0 <= a < b < r.len() ==> ranks_before(s, #[trigger] r[a] as int, #[trigger] r[b] as int),
        decreases n - i,
    {
        if let Some(x) = scores[i] {
            if x > 0 {
                let len = r.len();
                let mut p: usize = 0;
                while p < len && score_at(scores, r[p]) >= x
                    invariant
                        s == scores@,
                        n == s.len(),
                        len == r.len(),
                        p <= len,
                        i < n,
                        s[i as int] == Some(x),
                        forall|k: int| 0 <= k < r.len() ==> #[trigger] r[k] < i && positive(s[r[k] as int]),
                        forall|q: int| 0 <= q < p ==> score_value(s[#[trigger] r[q] as int]) >= x,
                        x > 0,
                    decreases len - p,
                {
                    p = p + 1;
                }
                let ghost old_r = r@;
                assert(p < len ==> score_value(s[old_r[p as int] as int]) < x);
                r.insert(p, i);
                assert forall|a: int, b: int| 0 <= a < b < r.len() implies ranks_before(
                    s,
                    #[trigger] r[a] as int,
                    #[trigger] r[b] as int,
                ) by {
                    if a < p && b < p {
                        assert(r[a] == old_r[a] && r[b] == old_r[b]);
                    } else if a < p && b == p {
                        assert(r[a] == old_r[a]);
                    } else if a < p {
                        assert(r[a] == old_r[a] && r[b] == old_r[b - 1]);
                    } else if a == p {
                        assert(r[b] == old_r[b - 1]);
                        assert(ranks_before(s, old_r[p as int] as int, old_r[b - 1] as int) || b - 1 == p);
                    } else {
                        assert(r[a] == old_r[a - 1] && r[b] == old_r[b - 1]);
                    }
                }
                assert forall|j: int| 0 <= j < i + 1 && positive(#[trigger] s[j]) implies r@.contains(
                    j as usize,
                ) by {
                    if j == i {
                        assert(r@[p as int] == i);
                    } else {
                        let k = choose|k: int| 0 <= k < old_r.len() && old_r[k] == j as usize;
                        if k < p {
                            assert(r@[k] == j as usize);
                        } else {
                            assert(r@[k + 1] == j as usize);
                        }
                    }
                }
            }
        }
        i = i + 1;
    }
    r
}

/// The bookmarks that match `pattern`, best first, as indices into `bookmarks`.
pub fn find_matches(bookmarks: &Vec<Bookmark>, home: &str, pattern: &str) -> (r: Vec<usize>)
    ensures
        is_ranking(scores_for(bookmarks_view(bookmarks@), home@, pattern@), r@),
{
    let ghost target = scores_for(bookmarks_view(bookmarks@), home@, pattern@);
    let mut scores: Vec<Option<i64>> = Vec::new();
    let mut i: usize = 0;
    while i < bookmarks.len()
        invariant
            i <= bookmarks.len(),
            target == scores_for(bookmarks_view(bookmarks@), home@, pattern@),
            scores@ == target.take(i as int),
        decreases bookmarks.len() - i,
    {
        let b = &bookmarks[i];
        let mut text = b.name.clone();
        text.append(" ");
        let shown = friendly_path(b.dest.as_str(), home);
        text.append(shown.as_str());
        proof {
            reveal_strlit(" ");
            assert(text@ =~= search_text(b@, home@));
        }
        scores.push(fuzzy_score(text.as_str(), pattern));
        i = i + 1;
        assert(scores@ =~= target.take(i as int));
    }
    assert(target.take(i as int) =~= target);
    rank_matches(&scores)
}


/// Listed in ranking order, with no repeats.
pub open spec fn strictly_ranked(s: Seq<Option<i64>>, r: Seq<usize>) -> bool {
    forall|a: int, b: int|
        0 <= a < b < r.len() ==> ranks_before(s, #[trigger] r[a] as int, #[trigger] r[b] as int)
}

proof fn ranked_lists_agree(s: Seq<Option<i64>>, r1: Seq<usize>, r2: Seq<usize>)
    requires
        strictly_ranked(s, r1),
        strictly_ranked(s, r2),
        forall|x: usize| r1.contains(x) <==> r2.contains(x),
    ensures
        r1 == r2,
    decreases r1.len(),
{
    if r1.len() == 0 {
        if r2.len() > 0 {
            assert(r2.contains(r2[0]));
        }
        assert(r1 =~= r2);
    } else {
        assert(r1.contains(r1[0]));
        assert(r2.len() > 0);
        assert(r2.contains(r2[0]));
        let j = choose|j: int| 0 <= j < r1.len() && r1[j] == r2[0];
        let k = choose|k: int| 0 <= k < r2.len() && r2[k] == r1[0];
        if j > 0 && k > 0 {
            assert(ranks_before(s, r1[0] as int, r1[j] as int));
            assert(ranks_before(s, r2[0] as int, r2[k] as int));
            assert(false);
        } else if j > 0 {
            assert(ranks_before(s, r1[0] as int, r1[j] as int));
            assert(false);
        } else if k > 0 {
            assert(ranks_before(s, r2[0] as int, r2[k] as int));
            assert(false);
        }
        let t1 = r1.skip(1);
        let t2 = r2.skip(1);
        assert forall|x: usize| t1.contains(x) <==> t2.contains(x) by {
            if t1.contains(x) {
                let a = choose|a: int| 0 <= a < t1.len() && t1[a] == x;
                assert(r1[a + 1] == x);
                assert(ranks_before(s, r1[0] as int, r1[a + 1] as int));
                assert(r2.contains(x));
                let b = choose|b: int| 0 <= b < r2.len() && r2[b] == x;
                assert(b != 0);
                assert(t2[b - 1] == x);
            }
            if t2.contains(x) {
                let a = choose|a: int| 0 <= a < t2.len() && t2[a] == x;
                assert(r2[a + 1] == x);
                assert(ranks_before(s, r2[0] as int, r2[a + 1] as int));
                assert(r1.contains(x));
                let b = choose|b: int| 0 <= b < r1.len() && r1[b] == x;
                assert(b != 0);
                assert(t1[b - 1] == x);
            }
        }
        assert forall|a: int, b: int| 0 <= a < b < t1.len() implies ranks_before(
            s,
            #[trigger] t1[a] as int,
            #[trigger] t1[b] as int,
        ) by {
            assert(t1[a] == r1[a + 1] && t1[b] == r1[b + 1]);
        }
        assert forall|a: int, b: int| 0 <= a < b < t2.len() implies ranks_before(
            s,
            #[trigger] t2[a] as int,
            #[trigger] t2[b] as int,
        ) by {
            assert(t2[a] == r2[a + 1] && t2[b] == r2[b + 1]);
        }
        ranked_lists_agree(s, t1, t2);
        assert(r1[0] == r2[0]);
        assert(r1.len() == t1.len() + 1 && r2.len() == t2.len() + 1);
        assert forall|i: int| 0 <= i < r1.len() implies r1[i] == r2[i] by {
            if i > 0 {
                assert(r1[i] == t1[i - 1] && r2[i] == t2[i - 1]);
            }
        }
        assert(r1 =~= r2);
    }
}

/// Scores admit exactly one ranking: the contracts that state `is_ranking`
/// fix their result.
pub proof fn ranking_is_unique(s: Seq<Option<i64>>, r1: Seq<usize>, r2: Seq<usize>)
    requires
        is_ranking(s, r1),
        is_ranking(s, r2),
    ensures
        r1 == r2,
{
    assert forall|x: usize| r1.contains(x) <==> r2.contains(x) by {
        if r1.contains(x) {
            let a = choose|a: int| 0 <= a < r1.len() && r1[a] == x;
            assert(r1[a] < s.len() && positive(s[r1[a] as int]));
        }
        if r2.contains(x) {
            let a = choose|a: int| 0 <= a < r2.len() && r2[a] == x;
            assert(r2[a] < s.len() && positive(s[r2[a] as int]));
        }
    }
    ranked_lists_agree(s, r1, r2);
}

} // verus!
