use shellmark::browse::{Command, Mode, MoveDirection};
use shellmark::keys::{
    any_char, arrow_down, char, ctrl_c, ctrl_k, esc, Act, Action, Binding, Combo, KeyCode, KeyEvent,
    KeyPattern, ModeMap, CONTROL, NO_MODIFIERS, SHIFT,
};
use shellmark::session::setup_keybindings;

fn key(code: KeyCode, modifiers: u8) -> KeyEvent {
    KeyEvent { code, modifiers }
}

#[test]
fn shipped_normal_mode_bindings() {
    let m = setup_keybindings();
    let n = Mode::Normal;
    assert_eq!(m.process(n, key(KeyCode::Char('c'), CONTROL)), Some(Command::ExitApp));
    assert_eq!(
        m.process(n, key(KeyCode::Down, NO_MODIFIERS)),
        Some(Command::MoveSel(MoveDirection::Down))
    );
    assert_eq!(
        m.process(n, key(KeyCode::Char('n'), CONTROL)),
        Some(Command::MoveSel(MoveDirection::Down))
    );
    assert_eq!(
        m.process(n, key(KeyCode::Char('p'), CONTROL)),
        Some(Command::MoveSel(MoveDirection::Up))
    );
    assert_eq!(m.process(n, key(KeyCode::Enter, NO_MODIFIERS)), Some(Command::DefaultAction));
    assert_eq!(m.process(n, key(KeyCode::Char('j'), CONTROL)), Some(Command::EnterSelDir));
    assert_eq!(m.process(n, key(KeyCode::Char('o'), CONTROL)), Some(Command::OpenSelInEditor));
    assert_eq!(
        m.process(n, key(KeyCode::Char('K'), CONTROL)),
        Some(Command::EnterMode(Mode::PendingDelete))
    );
    assert_eq!(m.process(n, key(KeyCode::Backspace, NO_MODIFIERS)), Some(Command::DeleteCharBack));
    assert_eq!(m.process(n, key(KeyCode::Backspace, CONTROL)), Some(Command::ClearInput));
    assert_eq!(m.process(n, key(KeyCode::Char('a'), NO_MODIFIERS)), Some(Command::InsertChar('a')));
    assert_eq!(m.process(n, key(KeyCode::Char('A'), SHIFT)), Some(Command::InsertChar('A')));
    assert_eq!(m.process(n, key(KeyCode::F(1), NO_MODIFIERS)), Some(Command::EnterMode(Mode::Help)));
    assert_eq!(m.process(n, key(KeyCode::Char('x'), CONTROL)), None);
    assert_eq!(m.process(n, key(KeyCode::Esc, NO_MODIFIERS)), None);
}

#[test]
fn shipped_pending_delete_and_help_bindings() {
    let m = setup_keybindings();
    let d = Mode::PendingDelete;
    assert_eq!(m.process(d, key(KeyCode::Char('y'), NO_MODIFIERS)), Some(Command::DelSelBookmark));
    assert_eq!(
        m.process(d, key(KeyCode::Char('n'), NO_MODIFIERS)),
        Some(Command::EnterMode(Mode::Normal))
    );
    assert_eq!(m.process(d, key(KeyCode::Char('c'), CONTROL)), Some(Command::ExitApp));
    assert_eq!(m.process(d, key(KeyCode::Char('a'), NO_MODIFIERS)), None);
    let h = Mode::Help;
    assert_eq!(m.process(h, key(KeyCode::Esc, NO_MODIFIERS)), Some(Command::EnterMode(Mode::Normal)));
    assert_eq!(m.process(h, key(KeyCode::Char('c'), CONTROL)), Some(Command::ExitApp));
    assert_eq!(m.process(h, key(KeyCode::Char('q'), NO_MODIFIERS)), None);
}

#[test]
fn first_registered_binding_wins() {
    let mut m = ModeMap::new();
    m.bind_with_input(Mode::Normal, any_char(), None);
    m.bind(Mode::Normal, char('x'), Command::ExitApp, "Exit");
    assert_eq!(m.process(Mode::Normal, key(KeyCode::Char('x'), NO_MODIFIERS)), Some(Command::InsertChar('x')));
    let mut m = ModeMap::new();
    m.bind(Mode::Normal, char('x'), Command::ExitApp, "Exit");
    m.bind_with_input(Mode::Normal, any_char(), None);
    assert_eq!(m.process(Mode::Normal, key(KeyCode::Char('x'), NO_MODIFIERS)), Some(Command::ExitApp));
    assert_eq!(m.process(Mode::Help, key(KeyCode::Char('x'), NO_MODIFIERS)), None);
}

#[test]
fn help_descriptions_of_normal_mode() {
    let m = setup_keybindings();
    let d = m.descriptions(Mode::Normal);
    assert_eq!(d.len(), 11);
    assert_eq!(d[0], ("C-c".to_string(), "Exit application".to_string()));
    assert_eq!(d[1], ("C-n".to_string(), "Select next".to_string()));
    assert_eq!(d[10], ("C-Backspace".to_string(), "Clear input".to_string()));
    let d = m.descriptions(Mode::Help);
    assert_eq!(d, vec![("C-c".to_string(), "Exit application".to_string())]);
}

#[test]
fn combo_constructors() {
    assert_eq!(char('y').desc, Some("y".to_string()));
    assert_eq!(
        char('y').pattern,
        KeyPattern::Exact(key(KeyCode::Char('y'), NO_MODIFIERS))
    );
    assert_eq!(ctrl_c().desc, Some("C-c".to_string()));
    assert_eq!(ctrl_k().pattern, KeyPattern::Exact(key(KeyCode::Char('k'), CONTROL)));
    assert_eq!(arrow_down().desc, Some("Down".to_string()));
    assert_eq!(esc().pattern, KeyPattern::Exact(key(KeyCode::Esc, NO_MODIFIERS)));
    assert_eq!(any_char().pattern, KeyPattern::AnyChar);
    assert_eq!(any_char().desc, None);
}

#[test]
fn combo_check_and_binding() {
    let c = Combo::with_input(None);
    assert_eq!(c.check(key(KeyCode::Char('z'), SHIFT)), Some(Some('z')));
    assert_eq!(c.check(key(KeyCode::Char('z'), CONTROL)), None);
    assert_eq!(c.check(key(KeyCode::Enter, NO_MODIFIERS)), None);
    let c = Combo::with_match(key(KeyCode::Enter, NO_MODIFIERS), Some("Enter".to_string()));
    assert_eq!(c.check(key(KeyCode::Enter, NO_MODIFIERS)), Some(None));
    assert_eq!(c.check(key(KeyCode::Enter, SHIFT)), None);
    let b = Binding::new(c, Act::Run(Command::DefaultAction), Some("Go".to_string()));
    assert_eq!(b.process(key(KeyCode::Enter, NO_MODIFIERS)), Some(Command::DefaultAction));
    assert_eq!(b.desc(), Some(("Enter".to_string(), "Go".to_string())));
    let b = Binding::new(any_char(), Act::TypeChar, None);
    assert_eq!(b.process(key(KeyCode::Char('q'), NO_MODIFIERS)), Some(Command::InsertChar('q')));
    assert_eq!(b.desc(), None);
}
