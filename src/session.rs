//! One step of the browse loop: timer ticks and key events, merged into one
//! ordered stream by the caller, are applied here one at a time; the step
//! says whether to repaint, whether to save the bookmarks, and whether the
//! session goes on.
use crate::browse::{
    handle_post, view_wf, BrowseError, BrowseState, BrowseView, Command, DestKind, HandleResult, Mode,
    MoveDirection, Outcome,
};
use crate::keys::{
    any_char, arrow_down, arrow_up, backspace, char, ctrl_K, ctrl_backspace, ctrl_c, ctrl_j, ctrl_k,
    ctrl_n, ctrl_o, ctrl_p, enter, esc, f1, first_command, KeyCode, KeyEvent, ModeMap, CONTROL,
    NO_MODIFIERS, SHIFT,
};
use vstd::prelude::*;

verus! {

/// `key` is exactly this key with these modifiers.
pub open spec fn is_key(key: KeyEvent, code: KeyCode, modifiers: u8) -> bool {
    key == (KeyEvent { code, modifiers })
}

/// The command that the shipped key bindings give for `key` in `mode`.
pub open spec fn shipped_command(mode: Mode, key: KeyEvent) -> Option<Command> {
    match mode {
        Mode::Normal => if is_key(key, KeyCode::Char('c'), CONTROL) {
            Some(Command::ExitApp)
        } else if is_key(key, KeyCode::Char('n'), CONTROL) || is_key(
            key,
            KeyCode::Down,
            NO_MODIFIERS,
        ) {
            Some(Command::MoveSel(MoveDirection::Down))
        } else if is_key(key, KeyCode::Char('p'), CONTROL) || is_key(key, KeyCode::Up, NO_MODIFIERS) {
            Some(Command::MoveSel(MoveDirection::Up))
        } else if is_key(key, KeyCode::Enter, NO_MODIFIERS) {
            Some(Command::DefaultAction)
        } else if is_key(key, KeyCode::Char('j'), CONTROL) {
            Some(Command::EnterSelDir)
        } else if is_key(key, KeyCode::Char('o'), CONTROL) {
            Some(Command::OpenSelInEditor)
        } else if is_key(key, KeyCode::Char('k'), CONTROL) || is_key(
            key,
            KeyCode::Char('K'),
            CONTROL,
        ) {
            Some(Command::EnterMode(Mode::PendingDelete))
        } else if is_key(key, KeyCode::Backspace, NO_MODIFIERS) {
            Some(Command::DeleteCharBack)
        } else if is_key(key, KeyCode::Backspace, CONTROL) {
            Some(Command::ClearInput)
        } else if key.code is Char && (key.modifiers == NO_MODIFIERS || key.modifiers == SHIFT) {
            Some(Command::InsertChar(key.code->Char_0))
        } else if is_key(key, KeyCode::F(1), NO_MODIFIERS) {
            Some(Command::EnterMode(Mode::Help))
        } else {
            None
        },
        Mode::PendingDelete => if is_key(key, KeyCode::Char('c'), CONTROL) {
            Some(Command::ExitApp)
        } else if is_key(key, KeyCode::Char('y'), NO_MODIFIERS) {
            Some(Command::DelSelBookmark)
        } else if is_key(key, KeyCode::Char('n'), NO_MODIFIERS) {
            Some(Command::EnterMode(Mode::Normal))
        } else {
            None
        },
        Mode::Help => if is_key(key, KeyCode::Esc, NO_MODIFIERS) {
            Some(Command::EnterMode(Mode::Normal))
        } else if is_key(key, KeyCode::Char('c'), CONTROL) {
            Some(Command::ExitApp)
        } else {
            None
        },
    }
}

/// The shipped key bindings, with the descriptions the help view shows.
pub fn setup_keybindings() -> (r: ModeMap)
    ensures
        forall|mode: Mode, key: KeyEvent| #[trigger]
            first_command(r.map@, mode, key) == shipped_command(mode, key),
{
    let mut mapping = ModeMap::new();

    mapping.bind(Mode::Normal, ctrl_c(), Command::ExitApp, "Exit application");
    mapping.bind(Mode::Normal, ctrl_n(), Command::MoveSel(MoveDirection::Down), "Select next");
    mapping.bind(Mode::Normal, arrow_down(), Command::MoveSel(MoveDirection::Down), "Select next");
    mapping.bind(Mode::Normal, ctrl_p(), Command::MoveSel(MoveDirection::Up), "Select previous");
    mapping.bind(Mode::Normal, arrow_up(), Command::MoveSel(MoveDirection::Up), "Select previous");
    mapping.bind(Mode::Normal, enter(), Command::DefaultAction, "Run the default action");
    mapping.bind(
        Mode::Normal,
        ctrl_j(),
        Command::EnterSelDir,
        "Jump to the bookmarked directory",
    );
    mapping.bind(
        Mode::Normal,
        ctrl_o(),
        Command::OpenSelInEditor,
        "Open the bookmarked location in $EDITOR",
    );
    mapping.bind(
        Mode::Normal,
        ctrl_k(),
        Command::EnterMode(Mode::PendingDelete),
        "Delete bookmark",
    );
    mapping.bind(
        Mode::Normal,
        ctrl_K(),
        Command::EnterMode(Mode::PendingDelete),
        "Delete bookmark",
    );
    mapping.bind_with_desc(Mode::Normal, backspace(), Command::DeleteCharBack, None);
    mapping.bind(Mode::Normal, ctrl_backspace(), Command::ClearInput, "Clear input");
    mapping.bind_with_input(Mode::Normal, any_char(), None);
    mapping.bind_with_desc(Mode::Normal, f1(), Command::EnterMode(Mode::Help), None);

    mapping.bind(Mode::PendingDelete, ctrl_c(), Command::ExitApp, "Exit");
    mapping.bind_with_desc(Mode::PendingDelete, char('y'), Command::DelSelBookmark, None);
    mapping.bind_with_desc(Mode::PendingDelete, char('n'), Command::EnterMode(Mode::Normal), None);

    mapping.bind_with_desc(Mode::Help, esc(), Command::EnterMode(Mode::Normal), None);
    mapping.bind(Mode::Help, ctrl_c(), Command::ExitApp, "Exit application");

    proof {
        assert forall|mode: Mode, key: KeyEvent| #[trigger]
            first_command(mapping.map@, mode, key) == shipped_command(mode, key) by {}
    }
    mapping
}


/// One event of the merged stream: a timer tick, a key press, or any other
/// terminal event (a resize, say), which asks for a repaint.
#[derive(Debug, Clone, Copy, PartialEq, Eq, Structural)]
pub enum SystemEvent {
    Timer,
    User(KeyEvent),
    Other,
}

/// The result of one step of the loop.
#[derive(Debug)]
pub struct LoopStep {
    pub repaint: bool,
    pub result: HandleResult,
    pub save_bookmarks: bool,
}

/// `v` marked as repainted at `now`.
pub open spec fn stamped(v: BrowseView, now: u64) -> BrowseView {
    BrowseView { last_refresh_at: Some(now), ..v }
}

/// The state the loop goes on with, if it goes on.
pub open spec fn loop_view(r: Result<LoopStep, BrowseError>) -> Option<BrowseView> {
    match r {
        Ok(st) => match st.result {
            HandleResult::Continue(s) => Some(s@),
            HandleResult::Terminate(_) => None,
        },
        Err(_) => None,
    }
}

/// How the loop passes on the handled command `h` from state `v`: an error
/// or an end as they are; a new state with a repaint, marked at `now`, exactly
/// when it differs from `v`.
pub open spec fn follows(
    v: BrowseView,
    h: Result<Outcome, BrowseError>,
    r: Result<LoopStep, BrowseError>,
    now: u64,
) -> bool {
    match h {
        Err(e) => r == Err::<LoopStep, BrowseError>(e),
        Ok(o) => match r {
            Err(_) => false,
            Ok(st) => st.save_bookmarks == o.save_bookmarks && match o.result {
                HandleResult::Terminate(a) => !st.repaint && st.result == HandleResult::Terminate(a),
                HandleResult::Continue(ns) => match st.result {
                    HandleResult::Terminate(_) => false,
                    HandleResult::Continue(s) => if ns@ == v {
                        !st.repaint && s@ == v
                    } else {
                        st.repaint && s@ == stamped(ns@, now)
                    },
                },
            },
        },
    }
}

/// A step that goes on with `s`, saving nothing.
pub open spec fn goes_on(r: Result<LoopStep, BrowseError>, repaint: bool, s: BrowseView) -> bool {
    &&& r matches Ok(st) && st.repaint == repaint && !st.save_bookmarks
    &&& loop_view(r) == Some(s)
}

fn step(repaint: bool, result: HandleResult, save_bookmarks: bool) -> (r: Result<LoopStep, BrowseError>)
    ensures
        r == Ok::<LoopStep, BrowseError>(LoopStep { repaint, result, save_bookmarks }),
{
    Ok(LoopStep { repaint, result, save_bookmarks })
}

/// Applies one event to `app_state`. A tick repaints only the first time
/// after a change; a key is resolved through `keybinds` in the current mode
/// and its command applied (`dest_kind` and `editor_set` as for
/// `BrowseState::handle_command`); `now` marks a repaint.
pub fn event_loop(
    event: &SystemEvent,
    app_state: BrowseState,
    keybinds: &ModeMap,
    dest_kind: Option<DestKind>,
    editor_set: bool,
    now: u64,
) -> (r: Result<LoopStep, BrowseError>)
    requires
        app_state.wf(),
    ensures
        match *event {
            SystemEvent::Timer => match app_state@.last_refresh_at {
                None => goes_on(r, true, stamped(app_state@, now)),
                Some(_) => goes_on(r, false, app_state@),
            },
            SystemEvent::Other => goes_on(r, true, stamped(app_state@, now)),
            SystemEvent::User(k) => match first_command(keybinds.map@, app_state.mode, k) {
                None => goes_on(r, false, app_state@),
                Some(c) => exists|h: Result<Outcome, BrowseError>|
                    #[trigger] handle_post(app_state@, c, dest_kind, editor_set, h) && follows(
                        app_state@,
                        h,
                        r,
                        now,
                    ),
            },
        },
        loop_view(r) matches Some(s) ==> view_wf(s),
{
    match event {
        SystemEvent::Timer => match app_state.last_refresh_at {
            None => {
                let mut s = app_state;
                s.last_refresh_at = Some(now);
                step(true, HandleResult::Continue(s), false)
            },
            Some(_) => step(false, HandleResult::Continue(app_state), false),
        },
        SystemEvent::Other => {
            let mut s = app_state;
            s.last_refresh_at = Some(now);
            step(true, HandleResult::Continue(s), false)
        },
        SystemEvent::User(k) => {
            let command = keybinds.process(app_state.mode, *k);
            match command {
                None => step(false, HandleResult::Continue(app_state), false),
                Some(c) => {
                    let h = app_state.handle_command(&c, dest_kind, editor_set);
                    let ghost hv = h;
                    let r = match h {
                        Err(e) => Err(e),
                        Ok(o) => {
                            let save = o.save_bookmarks;
                            match o.result {
                                HandleResult::Terminate(a) => step(
                                    false,
                                    HandleResult::Terminate(a),
                                    save,
                                ),
                                HandleResult::Continue(ns) => {
                                    if ns != app_state {
                                        let mut s = ns;
                                        s.last_refresh_at = Some(now);
                                        step(true, HandleResult::Continue(s), save)
                                    } else {
                                        step(false, HandleResult::Continue(ns), save)
                                    }
                                },
                            }
                        },
                    };
                    assert(handle_post(app_state@, c, dest_kind, editor_set, hv) && follows(
                        app_state@,
                        hv,
                        r,
                        now,
                    ));
                    r
                },
            }
        },
    }
}

} // verus!
