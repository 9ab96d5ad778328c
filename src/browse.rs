//! The browse engine: the input buffer, the selection over ranked candidates,
//! and the state machine that applies commands to the browse state.
use crate::bookmarks::{bookmarks_view, Bookmark, BookmarkView};
use crate::search::{find_matches, is_ranking, scores_for};
use crate::text::collect_chars;
use vstd::prelude::*;

verus! {

/// The text typed so far and the cursor within it.
#[derive(Debug)]
pub struct Input {
    pub input: Vec<char>,
    pub cursor: usize,
}

impl Input {
    /// The cursor stands within the text or just after it.
    pub open spec fn wf(&self) -> bool {
        self.cursor <= self.input@.len()
    }

    pub fn new() -> (r: Input)
        ensures
            r.input@.len() == 0,
            r.cursor == 0,
            r.wf(),
    {
        Input { input: Vec::new(), cursor: 0 }
    }

    /// Inserts `c` at the cursor and moves the cursor past it.
    pub fn insert_char(&self, c: char) -> (r: Self)
        requires
            self.wf(),
        ensures
            r.wf(),
            r.input@ == self.input@.insert(self.cursor as int, c),
            r.cursor == self.cursor + 1,
    {
        let mut input = self.input.clone();
        assert(input@ =~= self.input@);
        input.insert(self.cursor, c);
        let len = input.len();
        assert(self.cursor < len);
        Input { input, cursor: self.cursor + 1 }
    }

    /// Removes the character before the cursor; with none there, changes nothing.
    pub fn delete_char_backwards(&self) -> (r: Self)
        requires
            self.wf(),
        ensures
            r.wf(),
            self.cursor == 0 ==> r.input@ == self.input@ && r.cursor == 0,
            self.cursor > 0 ==> r.input@ == self.input@.remove(self.cursor - 1) && r.cursor
                == self.cursor - 1,
    {
        let mut input = self.input.clone();
        assert(input@ =~= self.input@);
        if self.cursor == 0 {
            return Input { input, cursor: 0 };
        }
        input.remove(self.cursor - 1);
        Input { input, cursor: self.cursor - 1 }
    }

    /// The typed text.
    pub fn text(&self) -> (r: String)
        ensures
            r@ == self.input@,
    {
        collect_chars(&self.input)
    }
}

impl Clone for Input {
    fn clone(&self) -> (r: Self)
        ensures
            r.input@ == self.input@,
            r.cursor == self.cursor,
    {
        let input = self.input.clone();
        assert(input@ =~= self.input@);
        Input { input, cursor: self.cursor }
    }
}

impl Default for Input {
    fn default() -> (r: Self)
        ensures
            r.input@.len() == 0,
            r.cursor == 0,
    {
        Input::new()
    }
}

/// Which way the highlight moves.
#[derive(Debug, Clone, Copy, PartialEq, Eq, Structural)]
pub enum MoveDirection {
    Down,
    Up,
}

pub open spec fn delta(d: MoveDirection) -> int {
    match d {
        MoveDirection::Down => 1,
        MoveDirection::Up => -1,
    }
}

impl MoveDirection {
    pub fn increment(&self) -> (r: i8)
        ensures
            r as int == delta(*self),
    {
        match self {
            MoveDirection::Down => 1,
            MoveDirection::Up => -1,
        }
    }
}

/// The indices `0..n` in order.
pub open spec fn identity(n: nat) -> Seq<usize> {
    Seq::new(n, |i: int| i as usize)
}

/// The highlight after the candidates were recomputed: none without candidates,
/// else the previous one moved back into range, or the first one.
pub open spec fn recomputed(n: nat, prev: Option<usize>) -> Option<usize> {
    if n == 0 {
        None
    } else {
        match prev {
            Some(i) => Some(
                if i < n - 1 {
                    i
                } else {
                    (n - 1) as usize
                },
            ),
            None => Some(0),
        }
    }
}

/// The highlight after one move over `n` candidates: it stops at either end.
pub open spec fn moved(n: nat, sel: Option<usize>, d: MoveDirection) -> Option<usize> {
    if n == 0 {
        sel
    } else {
        match sel {
            None => Some(0),
            Some(l) => {
                let t = l + delta(d);
                Some(
                    if t < 0 {
                        0
                    } else if t > n - 1 {
                        (n - 1) as usize
                    } else {
                        t as usize
                    },
                )
            },
        }
    }
}

/// The highlight is absent exactly when there are no candidates, and otherwise
/// points at one of them.
pub open spec fn selection_wf(candidates: Seq<usize>, selected: Option<usize>) -> bool {
    &&& (selected is None <==> candidates.len() == 0)
    &&& (selected matches Some(i) ==> i < candidates.len())
}

/// The candidates, as indices into the bookmarks, and the highlighted one, as
/// an index into the candidates.
#[derive(Debug)]
pub struct Selection {
    pub candidates: Vec<usize>,
    pub selected: Option<usize>,
}

impl Selection {
    pub open spec fn wf(&self) -> bool {
        selection_wf(self.candidates@, self.selected)
    }

    /// All bookmarks in their stored order, keeping the previous highlight where it fits.
    pub fn from_bookmarks_with_selected(bookmarks: &Vec<Bookmark>, selected: Option<usize>) -> (r:
        Self)
        ensures
            r.wf(),
            r.candidates@ == identity(bookmarks@.len()),
            r.selected == recomputed(bookmarks@.len(), selected),
    {
        let n = bookmarks.len();
        let mut candidates: Vec<usize> = Vec::new();
        let mut i: usize = 0;
        while i < n
            invariant
                i <= n,
                candidates@ == identity(i as nat),
            decreases n - i,
        {
            candidates.push(i);
            i = i + 1;
            assert(candidates@ =~= identity(i as nat));
        }
        Self::from_candidates_with_selected(candidates, selected)
    }

    /// All bookmarks in their stored order, the first one highlighted.
    pub fn from_bookmarks(bookmarks: &Vec<Bookmark>) -> (r: Self)
        ensures
            r.wf(),
            r.candidates@ == identity(bookmarks@.len()),
            r.selected == recomputed(bookmarks@.len(), None),
    {
        Self::from_bookmarks_with_selected(bookmarks, None)
    }

    /// The given candidates, keeping the previous highlight where it fits.
    pub fn from_candidates_with_selected(candidates: Vec<usize>, selected: Option<usize>) -> (r:
        Self)
        ensures
            r.wf(),
            r.candidates@ == candidates@,
            r.selected == recomputed(candidates@.len(), selected),
    {
        let n = candidates.len();
        let selected = if n == 0 {
            None
        } else {
            match selected {
                Some(cur) => Some(
                    if cur < n - 1 {
                        cur
                    } else {
                        n - 1
                    },
                ),
                None => Some(0),
            }
        };
        Selection { candidates, selected }
    }

    /// Moves the highlight one step, stopping at the first and the last candidate.
    pub fn move_highlight(&self, direction: &MoveDirection) -> (r: Self)
        ensures
            r.candidates@ == self.candidates@,
            r.selected == moved(self.candidates@.len(), self.selected, *direction),
            r.wf() || !self.wf(),
            self.candidates@.len() > 0 ==> r.wf(),
    {
        let candidates = self.candidates.clone();
        assert(candidates@ =~= self.candidates@);
        let n = candidates.len();
        if n == 0 {
            return Selection { candidates, selected: self.selected };
        }
        let selected = match self.selected {
            None => 0,
            Some(line) => match direction {
                MoveDirection::Down => if line < n - 1 {
                    line + 1
                } else {
                    n - 1
                },
                MoveDirection::Up => if line == 0 {
                    0
                } else if line - 1 < n - 1 {
                    line - 1
                } else {
                    n - 1
                },
            },
        };
        Selection { candidates, selected: Some(selected) }
    }
}

impl Clone for Selection {
    fn clone(&self) -> (r: Self)
        ensures
            r.candidates@ == self.candidates@,
            r.selected == self.selected,
    {
        let candidates = self.candidates.clone();
        assert(candidates@ =~= self.candidates@);
        Selection { candidates, selected: self.selected }
    }
}


/// The modal context that decides which key bindings apply.
#[derive(Debug, Clone, Copy, PartialEq, Eq, Structural)]
pub enum Mode {
    Normal,
    PendingDelete,
    Help,
}

/// What a key can ask the browser to do.
#[derive(Debug, Clone, Copy, PartialEq, Eq, Structural)]
pub enum Command {
    ExitApp,
    EnterMode(Mode),
    EnterSelDir,
    OpenSelInEditor,
    DefaultAction,
    DelSelBookmark,
    InsertChar(char),
    DeleteCharBack,
    ClearInput,
    MoveSel(MoveDirection),
}

/// What the browser hands to the shell when it ends.
#[derive(Debug)]
pub enum Action {
    ChangeDirAction { dest: String },
    OpenInEditorAction { dest: String },
}

pub enum ActionView {
    ChangeDir(Seq<char>),
    OpenInEditor(Seq<char>),
}

impl View for Action {
    type V = ActionView;

    open spec fn view(&self) -> ActionView {
        match self {
            Action::ChangeDirAction { dest } => ActionView::ChangeDir(dest@),
            Action::OpenInEditorAction { dest } => ActionView::OpenInEditor(dest@),
        }
    }
}

/// What the file system says a destination is.
#[derive(Debug, Clone, Copy, PartialEq, Eq, Structural)]
pub enum DestKind {
    File,
    Directory,
}

/// Why a command could not be carried out.
#[derive(Debug, Clone, Copy, PartialEq, Eq, Structural)]
pub enum BrowseError {
    /// The command needs to know whether the destination is a file, and was not told.
    MissingMetadata,
    /// The destination is a file whose path names no parent directory.
    NoParentDir,
}

/// The parent directory of a path, as `Path::parent` gives it.
pub uninterp spec fn parent_text(p: Seq<char>) -> Option<Seq<char>>;

/// Relies on `std::path::Path::parent`: the path without its last component,
/// or `None` for a root or an empty path; it does no I/O.
#[verifier::external_body]
fn parent_dir(path: &str) -> (r: Option<String>)
    ensures
        match r {
            Some(p) => parent_text(path@) == Some(p@),
            None => parent_text(path@) is None,
        },
{
    match std::path::Path::new(path).parent() {
        Some(p) => Some(p.to_string_lossy().to_string()),
        None => None,
    }
}

/// The directory to change to for a destination of the given kind: the
/// destination itself, or the parent of a file (`parent` is what
/// `Path::parent` gave for it).
pub fn change_dir_target(dest: &String, kind: DestKind, parent: Option<String>) -> (r: Result<
    String,
    BrowseError,
>)
    ensures
        kind == DestKind::Directory ==> (r matches Ok(d) && d@ == dest@),
        kind == DestKind::File ==> match parent {
            Some(p) => r matches Ok(d) && d@ == p@,
            None => r == Err::<String, BrowseError>(BrowseError::NoParentDir),
        },
{
    match kind {
        DestKind::Directory => Ok(dest.clone()),
        DestKind::File => match parent {
            Some(p) => Ok(p),
            None => Err(BrowseError::NoParentDir),
        },
    }
}

/// The whole browse state, as plain values.
pub struct BrowseView {
    pub bookmarks: Seq<BookmarkView>,
    pub home: Seq<char>,
    pub input: Seq<char>,
    pub cursor: usize,
    pub candidates: Seq<usize>,
    pub selected: Option<usize>,
    pub mode: Mode,
    pub last_refresh_at: Option<u64>,
}

/// The candidates that a query selects: every bookmark in stored order for an
/// empty query, else the ranking of the bookmarks by their fuzzy score.
pub open spec fn candidates_match(
    bs: Seq<BookmarkView>,
    home: Seq<char>,
    query: Seq<char>,
    c: Seq<usize>,
) -> bool {
    if query.len() == 0 {
        c == identity(bs.len())
    } else {
        is_ranking(scores_for(bs, home, query), c)
    }
}

/// A browse state that the browser can reach.
pub open spec fn view_wf(v: BrowseView) -> bool {
    &&& v.cursor <= v.input.len()
    &&& selection_wf(v.candidates, v.selected)
    &&& candidates_match(v.bookmarks, v.home, v.input, v.candidates)
}

/// `after` is `before` with its candidates recomputed for its query and its
/// highlight carried over.
pub open spec fn reselected(before: BrowseView, after: BrowseView) -> bool {
    &&& after.bookmarks == before.bookmarks
    &&& after.home == before.home
    &&& after.input == before.input
    &&& after.cursor == before.cursor
    &&& after.mode == before.mode
    &&& after.last_refresh_at == before.last_refresh_at
    &&& candidates_match(after.bookmarks, after.home, after.input, after.candidates)
    &&& after.selected == recomputed(after.candidates.len(), before.selected)
}

/// The index of the highlighted bookmark.
pub open spec fn selected_index(v: BrowseView) -> Option<int> {
    match v.selected {
        Some(k) => Some(v.candidates[k as int] as int),
        None => None,
    }
}

/// The destination of the highlighted bookmark.
pub open spec fn selected_dest(v: BrowseView) -> Option<Seq<char>> {
    match selected_index(v) {
        Some(b) => Some(v.bookmarks[b].dest),
        None => None,
    }
}

/// Everything the browser keeps while it runs. `home` is the user's home
/// directory, against which destinations are shown and matched;
/// `last_refresh_at` is the time of the last repaint since the state changed.
#[derive(Debug)]
pub struct BrowseState {
    pub bookmarks: Vec<Bookmark>,
    pub home: String,
    pub input: Input,
    pub selection: Selection,
    pub mode: Mode,
    pub last_refresh_at: Option<u64>,
}

impl View for BrowseState {
    type V = BrowseView;

    open spec fn view(&self) -> BrowseView {
        BrowseView {
            bookmarks: bookmarks_view(self.bookmarks@),
            home: self.home@,
            input: self.input.input@,
            cursor: self.input.cursor,
            candidates: self.selection.candidates@,
            selected: self.selection.selected,
            mode: self.mode,
            last_refresh_at: self.last_refresh_at,
        }
    }
}

/// The result of one command: the browser goes on with a new state, or ends
/// with an action for the shell (or none).
#[derive(Debug)]
pub enum HandleResult {
    Continue(BrowseState),
    Terminate(Option<Action>),
}

/// A handled command, and whether the bookmark list must now be saved.
#[derive(Debug)]
pub struct Outcome {
    pub result: HandleResult,
    pub save_bookmarks: bool,
}

/// The state the browser goes on with, if it goes on.
pub open spec fn next_view(r: Result<Outcome, BrowseError>) -> Option<BrowseView> {
    match r {
        Ok(o) => match o.result {
            HandleResult::Continue(s) => Some(s@),
            HandleResult::Terminate(_) => None,
        },
        Err(_) => None,
    }
}

/// The action the browser ends with, if it ends.
pub open spec fn final_action(r: Result<Outcome, BrowseError>) -> Option<Option<ActionView>> {
    match r {
        Ok(o) => match o.result {
            HandleResult::Continue(_) => None,
            HandleResult::Terminate(a) => match a {
                Some(x) => Some(Some(x@)),
                None => Some(None),
            },
        },
        Err(_) => None,
    }
}

pub open spec fn saves(r: Result<Outcome, BrowseError>) -> bool {
    r matches Ok(o) && o.save_bookmarks
}

/// The terminal action for a destination of the given kind when a directory
/// is wanted.
pub open spec fn enter_dir_post(
    d: Seq<char>,
    kind: Option<DestKind>,
    r: Result<Outcome, BrowseError>,
) -> bool {
    match kind {
        None => r == Err::<Outcome, BrowseError>(BrowseError::MissingMetadata),
        Some(DestKind::Directory) => final_action(r) == Some(Some(ActionView::ChangeDir(d))),
        Some(DestKind::File) => match parent_text(d) {
            Some(p) => final_action(r) == Some(Some(ActionView::ChangeDir(p))),
            None => r == Err::<Outcome, BrowseError>(BrowseError::NoParentDir),
        },
    }
}

/// What one command does to the browse state `v`; `kind` is what the file
/// system said of the highlighted destination, and `editor_set` whether an
/// editor is configured.
pub open spec fn handle_post(
    v: BrowseView,
    cmd: Command,
    kind: Option<DestKind>,
    editor_set: bool,
    r: Result<Outcome, BrowseError>,
) -> bool {
    &&& !saves(r) || cmd == Command::DelSelBookmark
    &&& match cmd {
        Command::ExitApp => final_action(r) == Some(None::<ActionView>),
        Command::DefaultAction => match selected_dest(v) {
            None => next_view(r) == Some(v),
            Some(d) => if kind == Some(DestKind::File) && editor_set {
                final_action(r) == Some(Some(ActionView::OpenInEditor(d)))
            } else {
                enter_dir_post(d, kind, r)
            },
        },
        Command::OpenSelInEditor => match selected_dest(v) {
            None => next_view(r) == Some(v),
            Some(d) => final_action(r) == Some(Some(ActionView::OpenInEditor(d))),
        },
        Command::EnterSelDir => match selected_dest(v) {
            None => next_view(r) == Some(v),
            Some(d) => enter_dir_post(d, kind, r),
        },
        Command::DelSelBookmark => match selected_index(v) {
            None => !saves(r) && next_view(r) == Some(BrowseView { mode: Mode::Normal, ..v }),
            Some(b) => saves(r) && (next_view(r) matches Some(n) && reselected(
                BrowseView { bookmarks: v.bookmarks.remove(b), mode: Mode::Normal, ..v },
                n,
            )),
        },
        Command::InsertChar(c) => next_view(r) matches Some(n) && reselected(
            BrowseView { input: v.input.insert(v.cursor as int, c), cursor: (v.cursor + 1) as usize, ..v },
            n,
        ),
        Command::DeleteCharBack => next_view(r) matches Some(n) && if v.cursor == 0 {
            reselected(v, n)
        } else {
            reselected(
                BrowseView { input: v.input.remove(v.cursor - 1), cursor: (v.cursor - 1) as usize, ..v },
                n,
            )
        },
        Command::ClearInput => next_view(r) matches Some(n) && reselected(
            BrowseView { input: Seq::empty(), cursor: 0, ..v },
            n,
        ),
        Command::MoveSel(d) => next_view(r) == Some(
            BrowseView { selected: moved(v.candidates.len(), v.selected, d), ..v },
        ),
        Command::EnterMode(m) => next_view(r) == Some(BrowseView { mode: m, ..v }),
    }
}

fn terminate(action: Option<Action>) -> (r: Result<Outcome, BrowseError>)
    ensures
        r matches Ok(o) && !o.save_bookmarks && o.result == HandleResult::Terminate(action),
{
    Ok(Outcome { result: HandleResult::Terminate(action), save_bookmarks: false })
}

fn proceed(state: BrowseState, save_bookmarks: bool) -> (r: Result<Outcome, BrowseError>)
    ensures
        r matches Ok(o) && o.save_bookmarks == save_bookmarks && o.result == HandleResult::Continue(
            state,
        ),
{
    Ok(Outcome { result: HandleResult::Continue(state), save_bookmarks })
}

impl BrowseState {
    pub open spec fn wf(&self) -> bool {
        view_wf(self@)
    }

    /// The state at the start of a session: an empty query, every bookmark a
    /// candidate, the first one highlighted.
    pub fn new(bookmarks: Vec<Bookmark>, home: String) -> (r: BrowseState)
        ensures
            r.wf(),
            r@.bookmarks == bookmarks_view(bookmarks@),
            r@.home == home@,
            r@.input.len() == 0,
            r@.cursor == 0,
            r@.candidates == identity(bookmarks@.len()),
            r@.selected == recomputed(bookmarks@.len(), None),
            r@.mode == Mode::Normal,
            r@.last_refresh_at is None,
    {
        let input = Input::new();
        let selection = Selection::from_bookmarks(&bookmarks);
        BrowseState { bookmarks, home, input, selection, mode: Mode::Normal, last_refresh_at: None }
    }

    /// The highlighted bookmark.
    pub fn selected_bookmark(&self) -> (r: Option<Bookmark>)
        requires
            self.wf(),
        ensures
            match selected_index(self@) {
                Some(b) => r matches Some(x) && x@ == self@.bookmarks[b],
                None => r is None,
            },
    {
        match self.selection.selected {
            Some(k) => {
                let b = self.selection.candidates[k];
                Some(self.bookmarks[b].clone())
            },
            None => None,
        }
    }

    /// Removes the bookmark at `index` and recomputes the candidates.
    pub fn remove_bookmark(&mut self, index: usize)
        requires
            old(self).input.wf(),
            index < old(self).bookmarks@.len(),
        ensures
            reselected(
                BrowseView { bookmarks: old(self)@.bookmarks.remove(index as int), ..old(self)@ },
                final(self)@,
            ),
            final(self).wf(),
    {
        self.bookmarks.remove(index);
        proof {
            assert(bookmarks_view(self.bookmarks@) =~= bookmarks_view(old(self).bookmarks@).remove(
                index as int,
            ));
        }
        self.update_selection();
    }

    /// Recomputes the candidates for the current query, keeping the highlight
    /// where it still fits.
    pub fn update_selection(&mut self)
        requires
            old(self).input.wf(),
        ensures
            reselected(old(self)@, final(self)@),
            final(self).wf(),
    {
        let prev = self.selection.selected;
        if self.input.input.len() == 0 {
            self.selection = Selection::from_bookmarks_with_selected(&self.bookmarks, prev);
            assert(bookmarks_view(self.bookmarks@).len() == self.bookmarks@.len());
        } else {
            let text = self.input.text();
            let candidates = find_matches(&self.bookmarks, self.home.as_str(), text.as_str());
            self.selection = Selection::from_candidates_with_selected(candidates, prev);
        }
    }

    pub fn enter_mode(&mut self, mode: Mode)
        ensures
            final(self)@ == (BrowseView { mode, ..old(self)@ }),
            final(self).bookmarks@ == old(self).bookmarks@,
    {
        self.mode = mode;
    }

    /// The destination that `cmd` needs the file system to describe, if any.
    pub fn dest_to_inspect(&self, cmd: &Command) -> (r: Option<String>)
        requires
            self.wf(),
        ensures
            match r {
                Some(d) => (*cmd == Command::DefaultAction || *cmd == Command::EnterSelDir)
                    && selected_dest(self@) == Some(d@),
                None => !(*cmd == Command::DefaultAction || *cmd == Command::EnterSelDir)
                    || selected_dest(self@) is None,
            },
    {
        match cmd {
            Command::DefaultAction | Command::EnterSelDir => match self.selected_bookmark() {
                Some(b) => Some(b.dest),
                None => None,
            },
            _ => None,
        }
    }

    /// Applies `cmd`. `dest_kind` is what the file system said of the
    /// highlighted destination (see `dest_to_inspect`), and `editor_set`
    /// whether an editor is configured.
    #[verifier::rlimit(60)]
    pub fn handle_command(&self, cmd: &Command, dest_kind: Option<DestKind>, editor_set: bool) -> (r:
        Result<Outcome, BrowseError>)
        requires
            self.wf(),
        ensures
            handle_post(self@, *cmd, dest_kind, editor_set, r),
            r matches Ok(o) ==> (o.result matches HandleResult::Continue(s) ==> s.wf()),
    {
        match cmd {
            Command::ExitApp => terminate(None),
            Command::DefaultAction => match self.selected_bookmark() {
                Some(bm) => match dest_kind {
                    None => Err(BrowseError::MissingMetadata),
                    Some(kind) => {
                        if kind == DestKind::File && editor_set {
                            terminate(Some(Action::OpenInEditorAction { dest: bm.dest }))
                        } else {
                            let parent = match kind {
                                DestKind::File => parent_dir(bm.dest.as_str()),
                                DestKind::Directory => None,
                            };
                            match change_dir_target(&bm.dest, kind, parent) {
                                Ok(dest) => terminate(Some(Action::ChangeDirAction { dest })),
                                Err(e) => Err(e),
                            }
                        }
                    },
                },
                None => proceed(self.clone(), false),
            },
            Command::OpenSelInEditor => match self.selected_bookmark() {
                Some(bm) => terminate(Some(Action::OpenInEditorAction { dest: bm.dest })),
                None => proceed(self.clone(), false),
            },
            Command::EnterSelDir => match self.selected_bookmark() {
                Some(bm) => match dest_kind {
                    None => Err(BrowseError::MissingMetadata),
                    Some(kind) => {
                        let parent = match kind {
                            DestKind::File => parent_dir(bm.dest.as_str()),
                            DestKind::Directory => None,
                        };
                        match change_dir_target(&bm.dest, kind, parent) {
                            Ok(dest) => terminate(Some(Action::ChangeDirAction { dest })),
                            Err(e) => Err(e),
                        }
                    },
                },
                None => proceed(self.clone(), false),
            },
            Command::DelSelBookmark => {
                let mut new_state = self.clone();
                match self.selection.selected {
                    Some(k) => {
                        let b = self.selection.candidates[k];
                        new_state.remove_bookmark(b);
                        new_state.enter_mode(Mode::Normal);
                        proceed(new_state, true)
                    },
                    None => {
                        new_state.enter_mode(Mode::Normal);
                        proceed(new_state, false)
                    },
                }
            },
            Command::InsertChar(c) => {
                let mut new_state = self.clone();
                new_state.input = self.input.insert_char(*c);
                new_state.update_selection();
                proceed(new_state, false)
            },
            Command::DeleteCharBack => {
                let mut new_state = self.clone();
                new_state.input = self.input.delete_char_backwards();
                new_state.update_selection();
                proceed(new_state, false)
            },
            Command::ClearInput => {
                let mut new_state = self.clone();
                new_state.input = Input::new();
                assert(new_state.input.input@ =~= Seq::<char>::empty());
                new_state.update_selection();
                proceed(new_state, false)
            },
            Command::MoveSel(direction) => {
                let mut new_state = self.clone();
                new_state.selection = self.selection.move_highlight(direction);
                proceed(new_state, false)
            },
            Command::EnterMode(mode) => {
                let mut new_state = self.clone();
                new_state.enter_mode(*mode);
                proceed(new_state, false)
            },
        }
    }
}

impl Clone for BrowseState {
    fn clone(&self) -> (r: Self)
        ensures
            r@ == self@,
            r.bookmarks@ == self.bookmarks@,
    {
        let bookmarks = self.bookmarks.clone();
        assert(bookmarks@ =~= self.bookmarks@);
        BrowseState {
            bookmarks,
            home: self.home.clone(),
            input: self.input.clone(),
            selection: self.selection.clone(),
            mode: self.mode,
            last_refresh_at: self.last_refresh_at,
        }
    }
}


fn same_chars(a: &Vec<char>, b: &Vec<char>) -> (r: bool)
    ensures
        r == (a@ == b@),
{
    if a.len() != b.len() {
        return false;
    }
    let mut i: usize = 0;
    while i < a.len()
        invariant
            a@.len() == b@.len(),
            i <= a@.len(),
            a@.take(i as int) == b@.take(i as int),
        decreases a@.len() - i,
    {
        if a[i] != b[i] {
            assert(a@[i as int] != b@[i as int]);
            return false;
        }
        assert(a@.take(i + 1) =~= a@.take(i as int).push(a@[i as int]));
        assert(b@.take(i + 1) =~= b@.take(i as int).push(b@[i as int]));
        i = i + 1;
    }
    assert(a@.take(a@.len() as int) =~= a@);
    assert(b@.take(b@.len() as int) =~= b@);
    true
}

fn same_indices(a: &Vec<usize>, b: &Vec<usize>) -> (r: bool)
    ensures
        r == (a@ == b@),
{
    if a.len() != b.len() {
        return false;
    }
    let mut i: usize = 0;
    while i < a.len()
        invariant
            a@.len() == b@.len(),
            i <= a@.len(),
            a@.take(i as int) == b@.take(i as int),
        decreases a@.len() - i,
    {
        if a[i] != b[i] {
            assert(a@[i as int] != b@[i as int]);
            return false;
        }
        assert(a@.take(i + 1) =~= a@.take(i as int).push(a@[i as int]));
        assert(b@.take(i + 1) =~= b@.take(i as int).push(b@[i as int]));
        i = i + 1;
    }
    assert(a@.take(a@.len() as int) =~= a@);
    assert(b@.take(b@.len() as int) =~= b@);
    true
}

fn same_bookmarks(a: &Vec<Bookmark>, b: &Vec<Bookmark>) -> (r: bool)
    ensures
        r == (bookmarks_view(a@) == bookmarks_view(b@)),
{
    let ghost va = bookmarks_view(a@);
    let ghost vb = bookmarks_view(b@);
    if a.len() != b.len() {
        assert(va.len() != vb.len());
        return false;
    }
    let mut i: usize = 0;
    while i < a.len()
        invariant
            va == bookmarks_view(a@),
            vb == bookmarks_view(b@),
            a@.len() == b@.len(),
            i <= a@.len(),
            va.take(i as int) == vb.take(i as int),
        decreases a@.len() - i,
    {
        if a[i].name != b[i].name || a[i].dest != b[i].dest {
            assert(va[i as int] != vb[i as int]);
            return false;
        }
        assert(va.take(i + 1) =~= va.take(i as int).push(va[i as int]));
        assert(vb.take(i + 1) =~= vb.take(i as int).push(vb[i as int]));
        i = i + 1;
    }
    assert(va.take(a@.len() as int) =~= va);
    assert(vb.take(b@.len() as int) =~= vb);
    true
}

impl PartialEq for BrowseState {
    fn eq(&self, other: &BrowseState) -> (r: bool) {
        same_bookmarks(&self.bookmarks, &other.bookmarks) && self.home == other.home && same_chars(
            &self.input.input,
            &other.input.input,
        ) && self.input.cursor == other.input.cursor && same_indices(
            &self.selection.candidates,
            &other.selection.candidates,
        ) && match (self.selection.selected, other.selection.selected) {
            (Some(x), Some(y)) => x == y,
            (None, None) => true,
            _ => false,
        } && self.mode == other.mode && match (self.last_refresh_at, other.last_refresh_at) {
            (Some(x), Some(y)) => x == y,
            (None, None) => true,
            _ => false,
        }
    }
}

impl vstd::std_specs::cmp::PartialEqSpecImpl for BrowseState {
    open spec fn obeys_eq_spec() -> bool {
        true
    }

    open spec fn eq_spec(&self, other: &BrowseState) -> bool {
        self@ == other@
    }
}

/// The highlight after `k` moves in direction `d` over `n` candidates.
pub open spec fn moved_times(n: nat, sel: Option<usize>, d: MoveDirection, k: nat) -> Option<
    usize,
>
    decreases k,
{
    if k == 0 {
        sel
    } else {
        moved(n, moved_times(n, sel, d, (k - 1) as nat), d)
    }
}

proof fn moving_down_advances(n: nat, sel: Option<usize>, k: nat)
    requires
        0 < n <= usize::MAX,
        k > 0,
    ensures
        moved_times(n, sel, MoveDirection::Down, k) matches Some(j) && j <= n - 1 && (j >= k - 1
            || j == n - 1),
    decreases k,
{
    if k > 1 {
        moving_down_advances(n, sel, (k - 1) as nat);
    } else {
        assert(moved_times(n, sel, MoveDirection::Down, 0) == sel);
    }
    assert(moved_times(n, sel, MoveDirection::Down, k) == moved(
        n,
        moved_times(n, sel, MoveDirection::Down, (k - 1) as nat),
        MoveDirection::Down,
    ));
}

/// Every state the browser reaches keeps its highlight among the candidates:
/// absent exactly when there are none, and otherwise a valid position.
pub proof fn reachable_highlight_is_in_range(v: BrowseView)
    requires
        view_wf(v),
    ensures
        v.selected is None <==> v.candidates.len() == 0,
        v.selected matches Some(i) ==> i < v.candidates.len(),
        forall|k: int| 0 <= k < v.candidates.len() ==> #[trigger] v.candidates[k] < v.bookmarks.len(),
{
}

/// Moving the highlight down more times than there are candidates leaves it
/// on the last candidate, wherever it started: it does not wrap around.
pub proof fn moving_down_stops_at_last(n: nat, sel: Option<usize>, k: nat)
    requires
        0 < n <= usize::MAX,
        k > n,
    ensures
        moved_times(n, sel, MoveDirection::Down, k) == Some((n - 1) as usize),
{
    moving_down_advances(n, sel, k);
}

/// Entering normal mode while in normal mode leaves the state as it was.
pub proof fn entering_normal_mode_again_changes_nothing(
    v: BrowseView,
    kind: Option<DestKind>,
    editor_set: bool,
    r: Result<Outcome, BrowseError>,
)
    requires
        v.mode == Mode::Normal,
        handle_post(v, Command::EnterMode(Mode::Normal), kind, editor_set, r),
    ensures
        next_view(r) == Some(v),
        !saves(r),
{
    assert((BrowseView { mode: Mode::Normal, ..v }) == v);
}

/// Clearing the input makes every bookmark a candidate again, in stored order.
pub proof fn clearing_input_lists_every_bookmark(
    v: BrowseView,
    kind: Option<DestKind>,
    editor_set: bool,
    r: Result<Outcome, BrowseError>,
)
    requires
        handle_post(v, Command::ClearInput, kind, editor_set, r),
    ensures
        next_view(r) matches Some(n) && n.input.len() == 0 && n.candidates == identity(
            v.bookmarks.len(),
        ) && n.bookmarks == v.bookmarks,
        !saves(r),
{
}

/// Deleting the highlighted middle one of three bookmarks under an empty
/// query leaves the other two in order, asks for them to be saved, lists both,
/// and keeps the highlight on the second position.
pub proof fn deleting_middle_bookmark(
    v: BrowseView,
    kind: Option<DestKind>,
    editor_set: bool,
    r: Result<Outcome, BrowseError>,
)
    requires
        view_wf(v),
        v.bookmarks.len() == 3,
        v.input.len() == 0,
        selected_index(v) == Some(1int),
        handle_post(v, Command::DelSelBookmark, kind, editor_set, r),
    ensures
        saves(r),
        next_view(r) matches Some(n) && n.bookmarks == seq![v.bookmarks[0], v.bookmarks[2]]
            && n.candidates == identity(2) && n.selected == Some(1usize) && n.mode == Mode::Normal,
{
    assert(v.candidates == identity(3));
    assert(v.bookmarks.remove(1) =~= seq![v.bookmarks[0], v.bookmarks[2]]);
}

/// Asking to delete and then cancelling leaves the bookmarks as they were and
/// asks for no save.
pub proof fn cancelled_delete_keeps_bookmarks(
    v: BrowseView,
    r1: Result<Outcome, BrowseError>,
    s1: BrowseView,
    r2: Result<Outcome, BrowseError>,
    kind1: Option<DestKind>,
    kind2: Option<DestKind>,
    editor_set: bool,
)
    requires
        handle_post(v, Command::EnterMode(Mode::PendingDelete), kind1, editor_set, r1),
        next_view(r1) == Some(s1),
        handle_post(s1, Command::EnterMode(Mode::Normal), kind2, editor_set, r2),
    ensures
        !saves(r1),
        !saves(r2),
        next_view(r2) == Some(BrowseView { mode: Mode::Normal, ..v }),
        next_view(r2) matches Some(s2) && s2.bookmarks == v.bookmarks,
{
}

} // verus!
