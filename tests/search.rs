use shellmark::bookmarks::Bookmark;
use shellmark::search::{find_matches, rank_matches};

#[test]
fn ranking_orders_by_score_then_index() {
    let scores = vec![Some(5), None, Some(9), Some(5), Some(0), Some(-3), Some(9)];
    assert_eq!(rank_matches(&scores), vec![2, 6, 0, 3]);
    assert_eq!(rank_matches(&vec![]), Vec::<usize>::new());
    assert_eq!(rank_matches(&vec![None, Some(0)]), Vec::<usize>::new());
}

#[test]
fn only_proj_matches_pr() {
    let bookmarks = vec![
        Bookmark::new("proj".to_string(), "/home/u/proj".to_string()),
        Bookmark::new("docs".to_string(), "/home/u/docs".to_string()),
    ];
    assert_eq!(find_matches(&bookmarks, "/home/u", "pr"), vec![0]);
    assert_eq!(find_matches(&bookmarks, "/home/u", "zz"), Vec::<usize>::new());
}

#[test]
fn destination_takes_part_in_matching() {
    let bookmarks = vec![
        Bookmark::new("one".to_string(), "/srv/alpha".to_string()),
        Bookmark::new("two".to_string(), "/srv/beta".to_string()),
    ];
    assert_eq!(find_matches(&bookmarks, "/home/u", "alpha"), vec![0]);
}
