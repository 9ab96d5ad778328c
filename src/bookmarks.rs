//! Bookmarks: a name and the path of a directory or a file.
use vstd::prelude::*;

verus! {

/// A named destination; `dest` is the path written as text.
#[derive(Debug)]
pub struct Bookmark {
    pub name: String,
    pub dest: String,
}

/// What a bookmark holds, as character sequences.
pub struct BookmarkView {
    pub name: Seq<char>,
    pub dest: Seq<char>,
}

impl View for Bookmark {
    type V = BookmarkView;

    open spec fn view(&self) -> BookmarkView {
        BookmarkView { name: self.name@, dest: self.dest@ }
    }
}

/// The views of a list of bookmarks.
pub open spec fn bookmarks_view(bs: Seq<Bookmark>) -> Seq<BookmarkView> {
    bs.map_values(|b: Bookmark| b@)
}

impl Bookmark {
    pub fn new(name: String, dest: String) -> (r: Bookmark)
        ensures
            r.name == name,
            r.dest == dest,
    {
        Bookmark { name, dest }
    }
}

impl Clone for Bookmark {
    fn clone(&self) -> (r: Self)
        ensures
            r == *self,
    {
        Bookmark { name: self.name.clone(), dest: self.dest.clone() }
    }
}


/// The index of the first bookmark called `name`.
pub open spec fn first_named(bs: Seq<BookmarkView>, name: Seq<char>) -> Option<int>
    decreases bs.len(),
{
    if bs.len() == 0 {
        None
    } else {
        match first_named(bs.drop_last(), name) {
            Some(i) => Some(i),
            None => if bs.last().name == name {
                Some(bs.len() - 1)
            } else {
                None
            },
        }
    }
}

proof fn first_named_in_range(bs: Seq<BookmarkView>, name: Seq<char>)
    ensures
        first_named(bs, name) matches Some(i) ==> 0 <= i < bs.len(),
    decreases bs.len(),
{
    if bs.len() > 0 {
        first_named_in_range(bs.drop_last(), name);
    }
}

proof fn first_named_of_prefix(bs: Seq<BookmarkView>, j: int, name: Seq<char>)
    requires
        0 <= j <= bs.len(),
        first_named(bs.take(j), name) is Some,
    ensures
        first_named(bs, name) == first_named(bs.take(j), name),
    decreases bs.len(),
{
    if j == bs.len() {
        assert(bs.take(j) =~= bs);
    } else {
        assert(bs.drop_last().take(j) =~= bs.take(j));
        first_named_of_prefix(bs.drop_last(), j, name);
    }
}

/// Where the bookmark called `name` stands.
pub fn find_named(bookmarks: &Vec<Bookmark>, name: &String) -> (r: Option<usize>)
    ensures
        match first_named(bookmarks_view(bookmarks@), name@) {
            Some(i) => r matches Some(k) && k as int == i,
            None => r is None,
        },
        r matches Some(k) ==> k < bookmarks@.len(),
{
    let ghost bs = bookmarks_view(bookmarks@);
    let n = bookmarks.len();
    let mut i: usize = 0;
    while i < n
        invariant
            bs == bookmarks_view(bookmarks@),
            n == bs.len(),
            i <= n,
            first_named(bs.take(i as int), name@) is None,
        decreases n - i,
    {
        proof {
            assert(bs.take(i + 1).drop_last() =~= bs.take(i as int));
        }
        if bookmarks[i].name == *name {
            proof {
                first_named_of_prefix(bs, i + 1, name@);
            }
            return Some(i);
        }
        i = i + 1;
    }
    proof {
        assert(bs.take(n as int) =~= bs);
    }
    None
}

/// Adds a bookmark. Without one of the same name it is appended; with one,
/// `force` replaces it (the new bookmark goes last), and otherwise nothing
/// changes. Returns whether the list changed and must be saved.
pub fn add_bookmark(bookmarks: &mut Vec<Bookmark>, name: String, dest: String, force: bool) -> (updated:
    bool)
    ensures
        ({
            let before = bookmarks_view(old(bookmarks)@);
            let after = bookmarks_view(final(bookmarks)@);
            let added = BookmarkView { name: name@, dest: dest@ };
            match first_named(before, name@) {
                None => updated && after == before.push(added),
                Some(i) => if force {
                    updated && after == before.remove(i).push(added)
                } else {
                    !updated && after == before
                },
            }
        }),
{
    let existing = find_named(bookmarks, &name);
    proof {
        first_named_in_range(bookmarks_view(bookmarks@), name@);
    }
    let ghost added = BookmarkView { name: name@, dest: dest@ };
    match existing {
        None => {
            bookmarks.push(Bookmark::new(name, dest));
            proof {
                assert(bookmarks@.last()@ == added);
                assert(bookmarks_view(bookmarks@) =~= bookmarks_view(old(bookmarks)@).push(added));
            }
            true
        },
        Some(idx) => {
            if force {
                bookmarks.remove(idx);
                let ghost removed = bookmarks@;
                bookmarks.push(Bookmark::new(name, dest));
                proof {
                    assert(bookmarks_view(removed) =~= bookmarks_view(old(bookmarks)@).remove(
                        idx as int,
                    ));
                    assert(bookmarks@.last()@ == added);
                    assert(bookmarks_view(bookmarks@) =~= bookmarks_view(removed).push(added));
                }
                true
            } else {
                false
            }
        },
    }
}

} // verus!
