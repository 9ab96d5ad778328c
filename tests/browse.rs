use shellmark::bookmarks::Bookmark;
use shellmark::browse::{
    Action, BrowseError, BrowseState, Command, DestKind, HandleResult, Input, Mode, MoveDirection,
    Outcome, Selection,
};

fn bm(name: &str, dest: &str) -> Bookmark {
    Bookmark::new(name.to_string(), dest.to_string())
}

fn three() -> Vec<Bookmark> {
    vec![bm("a", "/x/a"), bm("b", "/x/b"), bm("c", "/x/c")]
}

fn state(bookmarks: Vec<Bookmark>) -> BrowseState {
    BrowseState::new(bookmarks, "/home/u".to_string())
}

fn next(outcome: Result<Outcome, BrowseError>) -> (BrowseState, bool) {
    match outcome {
        Ok(Outcome { result: HandleResult::Continue(s), save_bookmarks }) => (s, save_bookmarks),
        Ok(Outcome { result: HandleResult::Terminate(_), .. }) => panic!("terminated"),
        Err(e) => panic!("error {:?}", e),
    }
}

fn apply(s: &BrowseState, cmd: Command) -> (BrowseState, bool) {
    next(s.handle_command(&cmd, None, false))
}

fn end(outcome: Result<Outcome, BrowseError>) -> Option<Action> {
    match outcome {
        Ok(Outcome { result: HandleResult::Terminate(a), save_bookmarks }) => {
            assert!(!save_bookmarks);
            a
        }
        Ok(_) => panic!("continued"),
        Err(e) => panic!("error {:?}", e),
    }
}

fn names(s: &BrowseState) -> Vec<String> {
    s.bookmarks.iter().map(|b| b.name.clone()).collect()
}

fn selection_in_range(s: &BrowseState) {
    let sel = &s.selection;
    assert_eq!(sel.selected.is_none(), sel.candidates.is_empty());
    if let Some(i) = sel.selected {
        assert!(i < sel.candidates.len());
    }
    for &c in &sel.candidates {
        assert!(c < s.bookmarks.len());
    }
    assert!(s.input.cursor <= s.input.input.len());
}

#[test]
fn input_insert_and_delete() {
    let i = Input::new();
    let i = i.insert_char('a').insert_char('b');
    assert_eq!(i.text(), "ab");
    assert_eq!(i.cursor, 2);
    let i = i.delete_char_backwards();
    assert_eq!(i.text(), "a");
    assert_eq!(i.cursor, 1);
    let i = i.delete_char_backwards().delete_char_backwards();
    assert_eq!(i.text(), "");
    assert_eq!(i.cursor, 0);
}

#[test]
fn input_insert_at_cursor() {
    let i = Input { input: vec!['a', 'c'], cursor: 1 };
    let i = i.insert_char('b');
    assert_eq!(i.text(), "abc");
    assert_eq!(i.cursor, 2);
    let i = i.delete_char_backwards();
    assert_eq!(i.text(), "ac");
    assert_eq!(i.cursor, 1);
}

#[test]
fn input_cursor_stays_in_range() {
    let mut i = Input::default();
    for c in "héllo wörld".chars() {
        i = i.insert_char(c);
        assert!(i.cursor <= i.input.len());
    }
    for _ in 0..20 {
        i = i.delete_char_backwards();
        assert!(i.cursor <= i.input.len());
    }
    assert_eq!(i.input.len(), 0);
}

#[test]
fn move_direction_increment() {
    assert_eq!(MoveDirection::Down.increment(), 1);
    assert_eq!(MoveDirection::Up.increment(), -1);
}

#[test]
fn selection_recompute_keeps_or_clamps_highlight() {
    let s = Selection::from_candidates_with_selected(vec![5, 6], Some(7));
    assert_eq!(s.candidates, vec![5, 6]);
    assert_eq!(s.selected, Some(1));
    let s = Selection::from_candidates_with_selected(vec![5, 6, 7], Some(1));
    assert_eq!(s.selected, Some(1));
    let s = Selection::from_candidates_with_selected(vec![5, 6], None);
    assert_eq!(s.selected, Some(0));
    let s = Selection::from_candidates_with_selected(vec![], Some(3));
    assert_eq!(s.selected, None);
}

#[test]
fn selection_from_bookmarks_is_identity() {
    let s = Selection::from_bookmarks(&three());
    assert_eq!(s.candidates, vec![0, 1, 2]);
    assert_eq!(s.selected, Some(0));
    let s = Selection::from_bookmarks_with_selected(&three(), Some(9));
    assert_eq!(s.selected, Some(2));
    let s = Selection::from_bookmarks(&Vec::new());
    assert!(s.candidates.is_empty());
    assert_eq!(s.selected, None);
}

#[test]
fn move_highlight_stops_at_both_ends() {
    let mut s = Selection::from_candidates_with_selected(vec![4, 5, 6], Some(0));
    for _ in 0..5 {
        s = s.move_highlight(&MoveDirection::Down);
    }
    assert_eq!(s.selected, Some(2));
    for _ in 0..5 {
        s = s.move_highlight(&MoveDirection::Up);
    }
    assert_eq!(s.selected, Some(0));
    let s = Selection { candidates: vec![1, 2], selected: None };
    assert_eq!(s.move_highlight(&MoveDirection::Up).selected, Some(0));
    let s = Selection { candidates: vec![], selected: None };
    assert_eq!(s.move_highlight(&MoveDirection::Down).selected, None);
}

#[test]
fn move_down_more_times_than_candidates_stays_on_last() {
    let s0 = state(three());
    for start in 0..3 {
        let mut s = s0.clone();
        s.selection.selected = Some(start);
        for _ in 0..4 {
            s = apply(&s, Command::MoveSel(MoveDirection::Down)).0;
        }
        assert_eq!(s.selection.selected, Some(2));
    }
}

#[test]
fn new_state_lists_every_bookmark() {
    let s = state(three());
    assert_eq!(s.selection.candidates, vec![0, 1, 2]);
    assert_eq!(s.selection.selected, Some(0));
    assert_eq!(s.mode, Mode::Normal);
    assert_eq!(s.last_refresh_at, None);
    assert_eq!(s.input.text(), "");
    selection_in_range(&s);
}

#[test]
fn reachable_states_keep_selection_in_range() {
    let mut s = state(three());
    let cmds = [
        Command::InsertChar('b'),
        Command::MoveSel(MoveDirection::Down),
        Command::InsertChar('q'),
        Command::MoveSel(MoveDirection::Up),
        Command::DeleteCharBack,
        Command::DeleteCharBack,
        Command::MoveSel(MoveDirection::Down),
        Command::MoveSel(MoveDirection::Down),
        Command::DelSelBookmark,
        Command::DelSelBookmark,
        Command::DelSelBookmark,
        Command::DelSelBookmark,
        Command::MoveSel(MoveDirection::Down),
    ];
    for c in cmds {
        s = apply(&s, c).0;
        selection_in_range(&s);
    }
    assert!(s.bookmarks.is_empty());
    assert_eq!(s.selection.selected, None);
}

#[test]
fn enter_normal_mode_in_normal_mode_changes_nothing() {
    let s = state(three());
    let (n, saved) = apply(&s, Command::EnterMode(Mode::Normal));
    assert!(n == s);
    assert!(!saved);
}

#[test]
fn enter_mode_sets_mode() {
    let s = state(three());
    let (n, _) = apply(&s, Command::EnterMode(Mode::Help));
    assert_eq!(n.mode, Mode::Help);
    assert!(n != s);
}

#[test]
fn clear_input_lists_every_bookmark_again() {
    let bookmarks = vec![
        bm("proj", "/home/u/proj"),
        bm("docs", "/home/u/docs"),
        bm("music", "/home/u/music"),
    ];
    let s = state(bookmarks);
    let (s, _) = apply(&s, Command::InsertChar('p'));
    let (s, _) = apply(&s, Command::InsertChar('r'));
    assert_eq!(s.selection.candidates, vec![0]);
    let (s, saved) = apply(&s, Command::ClearInput);
    assert!(!saved);
    assert_eq!(s.input.text(), "");
    assert_eq!(s.input.cursor, 0);
    assert_eq!(s.selection.candidates, vec![0, 1, 2]);
    assert_eq!(s.selection.selected, Some(0));
}

#[test]
fn delete_middle_bookmark_keeps_the_others() {
    let s = state(three());
    let (s, _) = apply(&s, Command::MoveSel(MoveDirection::Down));
    assert_eq!(s.selection.selected, Some(1));
    let (s, saved) = apply(&s, Command::EnterMode(Mode::PendingDelete));
    assert!(!saved);
    let (s, saved) = apply(&s, Command::DelSelBookmark);
    assert!(saved);
    assert_eq!(names(&s), vec!["a", "c"]);
    assert_eq!(s.selection.candidates, vec![0, 1]);
    assert_eq!(s.selection.selected, Some(1));
    assert_eq!(s.mode, Mode::Normal);
}

#[test]
fn delete_without_selection_only_returns_to_normal() {
    let s = state(Vec::new());
    let (s, _) = apply(&s, Command::EnterMode(Mode::PendingDelete));
    let (n, saved) = apply(&s, Command::DelSelBookmark);
    assert!(!saved);
    assert_eq!(n.mode, Mode::Normal);
    assert!(n.bookmarks.is_empty());
}

#[test]
fn query_pr_selects_proj_and_default_action_enters_it() {
    let bookmarks = vec![bm("proj", "/home/u/proj"), bm("docs", "/home/u/docs")];
    let s = state(bookmarks);
    let (s, _) = apply(&s, Command::InsertChar('p'));
    let (s, _) = apply(&s, Command::InsertChar('r'));
    assert_eq!(s.selection.candidates, vec![0]);
    assert_eq!(s.selection.selected, Some(0));
    assert_eq!(s.dest_to_inspect(&Command::DefaultAction), Some("/home/u/proj".to_string()));
    match end(s.handle_command(&Command::DefaultAction, Some(DestKind::Directory), false)) {
        Some(Action::ChangeDirAction { dest }) => assert_eq!(dest, "/home/u/proj"),
        other => panic!("unexpected {:?}", other),
    }
}

#[test]
fn default_action_on_file_without_editor_changes_to_parent() {
    let s = state(vec![bm("notes", "/home/u/notes.txt")]);
    match end(s.handle_command(&Command::DefaultAction, Some(DestKind::File), false)) {
        Some(Action::ChangeDirAction { dest }) => assert_eq!(dest, "/home/u"),
        other => panic!("unexpected {:?}", other),
    }
}

#[test]
fn default_action_on_file_with_editor_opens_it() {
    let s = state(vec![bm("notes", "/home/u/notes.txt")]);
    match end(s.handle_command(&Command::DefaultAction, Some(DestKind::File), true)) {
        Some(Action::OpenInEditorAction { dest }) => assert_eq!(dest, "/home/u/notes.txt"),
        other => panic!("unexpected {:?}", other),
    }
}

#[test]
fn default_action_on_directory_with_editor_changes_to_it() {
    let s = state(vec![bm("proj", "/home/u/proj")]);
    match end(s.handle_command(&Command::DefaultAction, Some(DestKind::Directory), true)) {
        Some(Action::ChangeDirAction { dest }) => assert_eq!(dest, "/home/u/proj"),
        other => panic!("unexpected {:?}", other),
    }
}

#[test]
fn default_action_without_metadata_is_an_error() {
    let s = state(vec![bm("proj", "/home/u/proj")]);
    let r = s.handle_command(&Command::DefaultAction, None, false);
    assert!(matches!(r, Err(BrowseError::MissingMetadata)));
    let r = s.handle_command(&Command::EnterSelDir, None, false);
    assert!(matches!(r, Err(BrowseError::MissingMetadata)));
}

#[test]
fn file_without_parent_is_an_error() {
    let s = state(vec![bm("root", "/")]);
    let r = s.handle_command(&Command::EnterSelDir, Some(DestKind::File), false);
    assert!(matches!(r, Err(BrowseError::NoParentDir)));
    let r = s.handle_command(&Command::DefaultAction, Some(DestKind::File), false);
    assert!(matches!(r, Err(BrowseError::NoParentDir)));
}

#[test]
fn enter_sel_dir_uses_directory_or_parent() {
    let s = state(vec![bm("notes", "/home/u/notes.txt")]);
    match end(s.handle_command(&Command::EnterSelDir, Some(DestKind::File), true)) {
        Some(Action::ChangeDirAction { dest }) => assert_eq!(dest, "/home/u"),
        other => panic!("unexpected {:?}", other),
    }
    match end(s.handle_command(&Command::EnterSelDir, Some(DestKind::Directory), true)) {
        Some(Action::ChangeDirAction { dest }) => assert_eq!(dest, "/home/u/notes.txt"),
        other => panic!("unexpected {:?}", other),
    }
}

#[test]
fn open_in_editor_needs_no_metadata() {
    let s = state(vec![bm("proj", "/home/u/proj")]);
    assert_eq!(s.dest_to_inspect(&Command::OpenSelInEditor), None);
    match end(s.handle_command(&Command::OpenSelInEditor, None, false)) {
        Some(Action::OpenInEditorAction { dest }) => assert_eq!(dest, "/home/u/proj"),
        other => panic!("unexpected {:?}", other),
    }
}

#[test]
fn actions_without_selection_continue_unchanged() {
    let s = state(Vec::new());
    assert_eq!(s.dest_to_inspect(&Command::DefaultAction), None);
    for c in [Command::DefaultAction, Command::OpenSelInEditor, Command::EnterSelDir] {
        let (n, saved) = next(s.handle_command(&c, None, false));
        assert!(!saved);
        assert!(n == s);
    }
}

#[test]
fn exit_app_terminates_without_action() {
    let s = state(three());
    assert!(end(s.handle_command(&Command::ExitApp, None, false)).is_none());
}

#[test]
fn cancelled_delete_keeps_bookmarks() {
    let s = state(three());
    let (s1, saved1) = apply(&s, Command::EnterMode(Mode::PendingDelete));
    assert_eq!(s1.mode, Mode::PendingDelete);
    let (s2, saved2) = apply(&s1, Command::EnterMode(Mode::Normal));
    assert!(!saved1 && !saved2);
    assert_eq!(names(&s2), vec!["a", "b", "c"]);
    assert!(s2 == s);
}

#[test]
fn typing_filters_and_backspace_restores() {
    let bookmarks = vec![bm("proj", "/home/u/proj"), bm("docs", "/home/u/docs")];
    let s = state(bookmarks);
    let (s, _) = apply(&s, Command::InsertChar('d'));
    assert_eq!(s.input.text(), "d");
    assert!(s.selection.candidates.contains(&1));
    let (s, _) = apply(&s, Command::InsertChar('z'));
    assert!(s.selection.candidates.is_empty());
    assert_eq!(s.selection.selected, None);
    let (s, _) = apply(&s, Command::DeleteCharBack);
    let (s, _) = apply(&s, Command::DeleteCharBack);
    assert_eq!(s.selection.candidates, vec![0, 1]);
    assert_eq!(s.selection.selected, Some(0));
}

#[test]
fn selected_bookmark_and_removal() {
    let mut s = state(three());
    s.selection.selected = Some(2);
    assert_eq!(s.selected_bookmark().map(|b| b.name), Some("c".to_string()));
    s.remove_bookmark(0);
    assert_eq!(names(&s), vec!["b", "c"]);
    assert_eq!(s.selection.candidates, vec![0, 1]);
    assert_eq!(s.selection.selected, Some(1));
    s.enter_mode(Mode::Help);
    assert_eq!(s.mode, Mode::Help);
}

#[test]
fn update_selection_follows_the_query() {
    let mut s = state(vec![bm("proj", "/home/u/proj"), bm("docs", "/home/u/docs")]);
    s.input = s.input.insert_char('o').insert_char('c');
    s.update_selection();
    assert_eq!(s.selection.candidates, vec![1]);
    assert_eq!(s.selection.selected, Some(0));
}
