//! Key events and the per-mode key binding table, evaluated in registration
//! order: the first binding that matches a key decides its command.
use crate::browse::{Command, Mode};
use crate::text::collect_chars;
use vstd::prelude::*;

verus! {

/// No modifier key held.
pub const NO_MODIFIERS: u8 = 0;

pub const SHIFT: u8 = 1;

pub const CONTROL: u8 = 2;

pub const ALT: u8 = 4;

/// The key that was pressed.
#[derive(Debug, Clone, Copy, PartialEq, Eq, Structural)]
pub enum KeyCode {
    Backspace,
    Enter,
    Left,
    Right,
    Up,
    Down,
    Home,
    End,
    PageUp,
    PageDown,
    Tab,
    BackTab,
    Delete,
    Insert,
    F(u8),
    Char(char),
    Null,
    Esc,
}

/// A key press: the key and the modifier keys held, as a set of bits.
#[derive(Debug, Clone, Copy, PartialEq, Eq, Structural)]
pub struct KeyEvent {
    pub code: KeyCode,
    pub modifiers: u8,
}

/// What a combo matches: one exact key press, or any character typed plainly
/// or with shift (which it captures).
#[derive(Debug, Clone, Copy, PartialEq, Eq, Structural)]
pub enum KeyPattern {
    Exact(KeyEvent),
    AnyChar,
}

/// A key pattern and how the help view names it.
#[derive(Debug)]
pub struct Combo {
    pub pattern: KeyPattern,
    pub desc: Option<String>,
}

/// What a binding produces once its combo matched.
#[derive(Debug, Clone, Copy, PartialEq, Eq, Structural)]
pub enum Act {
    /// Always this command.
    Run(Command),
    /// Insert the character that the combo captured.
    TypeChar,
}

/// Whether `key` matches `p`, and the character it captures.
pub open spec fn captures(p: KeyPattern, key: KeyEvent) -> Option<Option<char>> {
    match p {
        KeyPattern::Exact(e) => if key == e {
            Some(None)
        } else {
            None
        },
        KeyPattern::AnyChar => match key.code {
            KeyCode::Char(c) => if key.modifiers == NO_MODIFIERS || key.modifiers == SHIFT {
                Some(Some(c))
            } else {
                None
            },
            _ => None,
        },
    }
}

/// The command that a pattern with an act gives for `key`.
pub open spec fn command_for(p: KeyPattern, act: Act, key: KeyEvent) -> Option<Command> {
    match captures(p, key) {
        None => None,
        Some(payload) => match act {
            Act::Run(c) => Some(c),
            Act::TypeChar => match payload {
                Some(ch) => Some(Command::InsertChar(ch)),
                None => None,
            },
        },
    }
}

impl Combo {
    /// A combo that captures any character typed plainly or with shift.
    pub fn with_input(desc: Option<String>) -> (r: Combo)
        ensures
            r.pattern == KeyPattern::AnyChar,
            r.desc == desc,
    {
        Combo { pattern: KeyPattern::AnyChar, desc }
    }

    /// A combo that matches exactly one key press.
    pub fn with_match(key: KeyEvent, desc: Option<String>) -> (r: Combo)
        ensures
            r.pattern == KeyPattern::Exact(key),
            r.desc == desc,
    {
        Combo { pattern: KeyPattern::Exact(key), desc }
    }

    /// Whether `key` matches, and the character it captures.
    pub fn check(&self, key: KeyEvent) -> (r: Option<Option<char>>)
        ensures
            r == captures(self.pattern, key),
    {
        match self.pattern {
            KeyPattern::Exact(e) => if key == e {
                Some(None)
            } else {
                None
            },
            KeyPattern::AnyChar => match key.code {
                KeyCode::Char(c) => if key.modifiers == NO_MODIFIERS || key.modifiers == SHIFT {
                    Some(Some(c))
                } else {
                    None
                },
                _ => None,
            },
        }
    }
}

/// A combo, what it produces, and how the help view describes that.
#[derive(Debug)]
pub struct Binding {
    pub combo: Combo,
    pub act: Act,
    pub desc: Option<String>,
}

impl Binding {
    pub fn new(combo: Combo, act: Act, desc: Option<String>) -> (r: Binding)
        ensures
            r == (Binding { combo, act, desc }),
    {
        Binding { combo, act, desc }
    }
}

/// A binding as the key table consults it: the command it gives for a key,
/// and its (combo, action) description for the help view.
pub trait Action {
    spec fn command_of(&self, key: KeyEvent) -> Option<Command>;

    spec fn desc_of(&self) -> Option<(Seq<char>, Seq<char>)>;

    fn process(&self, key: KeyEvent) -> (r: Option<Command>)
        ensures
            r == self.command_of(key),
    ;

    fn desc(&self) -> (r: Option<(String, String)>)
        ensures
            match self.desc_of() {
                Some(d) => r matches Some(p) && p.0@ == d.0 && p.1@ == d.1,
                None => r is None,
            },
    ;
}

impl Action for Binding {
    open spec fn command_of(&self, key: KeyEvent) -> Option<Command> {
        command_for(self.combo.pattern, self.act, key)
    }

    open spec fn desc_of(&self) -> Option<(Seq<char>, Seq<char>)> {
        match (self.combo.desc, self.desc) {
            (Some(c), Some(a)) => Some((c@, a@)),
            _ => None,
        }
    }

    fn process(&self, key: KeyEvent) -> (r: Option<Command>) {
        match self.combo.check(key) {
            None => None,
            Some(payload) => match self.act {
                Act::Run(c) => Some(c),
                Act::TypeChar => match payload {
                    Some(ch) => Some(Command::InsertChar(ch)),
                    None => None,
                },
            },
        }
    }

    fn desc(&self) -> (r: Option<(String, String)>) {
        match (&self.combo.desc, &self.desc) {
            (Some(c), Some(a)) => Some((c.clone(), a.clone())),
            _ => None,
        }
    }
}

/// The command that the first binding of `mode` to match `key` gives.
pub open spec fn first_command(entries: Seq<(Mode, Binding)>, mode: Mode, key: KeyEvent) -> Option<
    Command,
>
    decreases entries.len(),
{
    if entries.len() == 0 {
        None
    } else {
        match first_command(entries.drop_last(), mode, key) {
            Some(c) => Some(c),
            None => {
                let e = entries.last();
                if e.0 == mode {
                    command_for(e.1.combo.pattern, e.1.act, key)
                } else {
                    None
                }
            },
        }
    }
}

/// The (combo, action) descriptions of the bindings of `mode`, in order.
pub open spec fn descriptions_of(entries: Seq<(Mode, Binding)>, mode: Mode) -> Seq<
    (Seq<char>, Seq<char>),
>
    decreases entries.len(),
{
    if entries.len() == 0 {
        Seq::empty()
    } else {
        let e = entries.last();
        let rest = descriptions_of(entries.drop_last(), mode);
        if e.0 == mode {
            match (e.1.combo.desc, e.1.desc) {
                (Some(c), Some(a)) => rest.push((c@, a@)),
                _ => rest,
            }
        } else {
            rest
        }
    }
}

proof fn first_command_of_prefix(entries: Seq<(Mode, Binding)>, j: int, mode: Mode, key: KeyEvent)
    requires
        0 <= j <= entries.len(),
        first_command(entries.take(j), mode, key) is Some,
    ensures
        first_command(entries, mode, key) == first_command(entries.take(j), mode, key),
    decreases entries.len(),
{
    if j == entries.len() {
        assert(entries.take(j) =~= entries);
    } else {
        assert(entries.drop_last().take(j) =~= entries.take(j));
        first_command_of_prefix(entries.drop_last(), j, mode, key);
    }
}

proof fn first_command_push(entries: Seq<(Mode, Binding)>, e: (Mode, Binding))
    ensures
        forall|mode: Mode, key: KeyEvent|
            #[trigger] first_command(entries.push(e), mode, key) == match first_command(
                entries,
                mode,
                key,
            ) {
                Some(c) => Some(c),
                None => if e.0 == mode {
                    command_for(e.1.combo.pattern, e.1.act, key)
                } else {
                    None
                },
            },
{
    assert(entries.push(e).drop_last() =~= entries);
}

/// The bindings of every mode, in registration order.
pub struct ModeMap {
    pub map: Vec<(Mode, Binding)>,
}

impl ModeMap {
    pub fn new() -> (r: ModeMap)
        ensures
            r.map@.len() == 0,
    {
        ModeMap { map: Vec::new() }
    }

    /// Binds `combo` in `mode` to inserting the character it captures.
    pub fn bind_with_input(&mut self, mode: Mode, combo: Combo, desc: Option<String>)
        ensures
            final(self).map@ == old(self).map@.push((mode, Binding { combo, act: Act::TypeChar, desc })),
            forall|m: Mode, k: KeyEvent|
                #[trigger] first_command(final(self).map@, m, k) == match first_command(old(self).map@, m, k) {
                    Some(c) => Some(c),
                    None => if m == mode {
                        command_for(combo.pattern, Act::TypeChar, k)
                    } else {
                        None
                    },
                },
    {
        self.map.push((mode, Binding::new(combo, Act::TypeChar, desc)));
        proof {
            first_command_push(old(self).map@, (mode, Binding { combo, act: Act::TypeChar, desc }));
        }
    }

    /// Binds `combo` in `mode` to `cmd`, with an optional description.
    pub fn bind_with_desc(&mut self, mode: Mode, combo: Combo, cmd: Command, desc: Option<String>)
        ensures
            final(self).map@ == old(self).map@.push((mode, Binding { combo, act: Act::Run(cmd), desc })),
            forall|m: Mode, k: KeyEvent|
                #[trigger] first_command(final(self).map@, m, k) == match first_command(old(self).map@, m, k) {
                    Some(c) => Some(c),
                    None => if m == mode {
                        command_for(combo.pattern, Act::Run(cmd), k)
                    } else {
                        None
                    },
                },
    {
        self.map.push((mode, Binding::new(combo, Act::Run(cmd), desc)));
        proof {
            first_command_push(old(self).map@, (mode, Binding { combo, act: Act::Run(cmd), desc }));
        }
    }

    /// Binds `combo` in `mode` to `cmd`, described as `desc`.
    pub fn bind(&mut self, mode: Mode, combo: Combo, cmd: Command, desc: &str)
        ensures
            final(self).map@.len() == old(self).map@.len() + 1,
            final(self).map@.drop_last() == old(self).map@,
            final(self).map@.last().0 == mode,
            final(self).map@.last().1.combo == combo,
            final(self).map@.last().1.act == Act::Run(cmd),
            final(self).map@.last().1.desc matches Some(d) && d@ == desc@,
            forall|m: Mode, k: KeyEvent|
                #[trigger] first_command(final(self).map@, m, k) == match first_command(old(self).map@, m, k) {
                    Some(c) => Some(c),
                    None => if m == mode {
                        command_for(combo.pattern, Act::Run(cmd), k)
                    } else {
                        None
                    },
                },
    {
        let text = String::from_str(desc);
        self.bind_with_desc(mode, combo, cmd, Some(text));
        proof {
            assert(self.map@.drop_last() =~= old(self).map@);
        }
    }

    /// The command of the first binding of `mode` that matches `key`.
    pub fn process(&self, mode: Mode, key: KeyEvent) -> (r: Option<Command>)
        ensures
            r == first_command(self.map@, mode, key),
    {
        let n = self.map.len();
        let mut i: usize = 0;
        while i < n
            invariant
                n == self.map@.len(),
                i <= n,
                first_command(self.map@.take(i as int), mode, key) is None,
            decreases n - i,
        {
            let entry = &self.map[i];
            proof {
                assert(self.map@.take(i + 1).drop_last() =~= self.map@.take(i as int));
            }
            if entry.0 == mode {
                let found = entry.1.process(key);
                if found.is_some() {
                    proof {
                        first_command_of_prefix(self.map@, i + 1, mode, key);
                    }
                    return found;
                }
            }
            i = i + 1;
        }
        proof {
            assert(self.map@.take(n as int) =~= self.map@);
        }
        None
    }

    /// The (combo, action) descriptions of the bindings of `mode`, for the help view.
    pub fn descriptions(&self, mode: Mode) -> (r: Vec<(String, String)>)
        ensures
            r@.map_values(|p: (String, String)| (p.0@, p.1@)) == descriptions_of(self.map@, mode),
    {
        let n = self.map.len();
        let mut out: Vec<(String, String)> = Vec::new();
        let mut i: usize = 0;
        while i < n
            invariant
                n == self.map@.len(),
                i <= n,
                out@.map_values(|p: (String, String)| (p.0@, p.1@)) == descriptions_of(
                    self.map@.take(i as int),
                    mode,
                ),
            decreases n - i,
        {
            let entry = &self.map[i];
            proof {
                assert(self.map@.take(i + 1).drop_last() =~= self.map@.take(i as int));
            }
            if entry.0 == mode {
                let ghost before = out@;
                match entry.1.desc() {
                    Some(p) => {
                        out.push(p);
                        proof {
                            assert(out@.map_values(|p: (String, String)| (p.0@, p.1@)) =~= before.map_values(
                                |p: (String, String)| (p.0@, p.1@),
                            ).push((out@.last().0@, out@.last().1@)));
                        }
                    },
                    None => {},
                }
            }
            i = i + 1;
        }
        proof {
            assert(self.map@.take(n as int) =~= self.map@);
        }
        out
    }
}


/// An exact key press combo described as `desc`.
fn exact(code: KeyCode, modifiers: u8, desc: &str) -> (r: Combo)
    ensures
        r.pattern == KeyPattern::Exact(KeyEvent { code, modifiers }),
        r.desc matches Some(d) && d@ == desc@,
{
    Combo::with_match(KeyEvent { code, modifiers }, Some(String::from_str(desc)))
}

/// Any character typed plainly or with shift, captured; not described.
pub fn any_char() -> (r: Combo)
    ensures
        r.pattern == KeyPattern::AnyChar,
        r.desc is None,
{
    Combo::with_input(None)
}

/// The character `ch` typed without modifiers, described as itself.
pub fn char(ch: char) -> (r: Combo)
    ensures
        r.pattern == KeyPattern::Exact(KeyEvent { code: KeyCode::Char(ch), modifiers: NO_MODIFIERS }),
        r.desc matches Some(d) && d@ == seq![ch],
{
    let text = collect_chars(&vec![ch]);
    Combo::with_match(KeyEvent { code: KeyCode::Char(ch), modifiers: NO_MODIFIERS }, Some(text))
}

pub fn ctrl_c() -> (r: Combo)
    ensures
        r.pattern == KeyPattern::Exact(KeyEvent { code: KeyCode::Char('c'), modifiers: CONTROL }),
        r.desc matches Some(d) && d@ == "C-c"@,
{
    exact(KeyCode::Char('c'), CONTROL, "C-c")
}

pub fn ctrl_n() -> (r: Combo)
    ensures
        r.pattern == KeyPattern::Exact(KeyEvent { code: KeyCode::Char('n'), modifiers: CONTROL }),
        r.desc matches Some(d) && d@ == "C-n"@,
{
    exact(KeyCode::Char('n'), CONTROL, "C-n")
}

pub fn ctrl_p() -> (r: Combo)
    ensures
        r.pattern == KeyPattern::Exact(KeyEvent { code: KeyCode::Char('p'), modifiers: CONTROL }),
        r.desc matches Some(d) && d@ == "C-p"@,
{
    exact(KeyCode::Char('p'), CONTROL, "C-p")
}

pub fn ctrl_j() -> (r: Combo)
    ensures
        r.pattern == KeyPattern::Exact(KeyEvent { code: KeyCode::Char('j'), modifiers: CONTROL }),
        r.desc matches Some(d) && d@ == "C-j"@,
{
    exact(KeyCode::Char('j'), CONTROL, "C-j")
}

pub fn ctrl_o() -> (r: Combo)
    ensures
        r.pattern == KeyPattern::Exact(KeyEvent { code: KeyCode::Char('o'), modifiers: CONTROL }),
        r.desc matches Some(d) && d@ == "C-o"@,
{
    exact(KeyCode::Char('o'), CONTROL, "C-o")
}

pub fn ctrl_k() -> (r: Combo)
    ensures
        r.pattern == KeyPattern::Exact(KeyEvent { code: KeyCode::Char('k'), modifiers: CONTROL }),
        r.desc matches Some(d) && d@ == "C-k"@,
{
    exact(KeyCode::Char('k'), CONTROL, "C-k")
}

#[allow(non_snake_case)]
pub fn ctrl_K() -> (r: Combo)
    ensures
        r.pattern == KeyPattern::Exact(KeyEvent { code: KeyCode::Char('K'), modifiers: CONTROL }),
        r.desc matches Some(d) && d@ == "C-K"@,
{
    exact(KeyCode::Char('K'), CONTROL, "C-K")
}

pub fn arrow_down() -> (r: Combo)
    ensures
        r.pattern == KeyPattern::Exact(KeyEvent { code: KeyCode::Down, modifiers: NO_MODIFIERS }),
        r.desc matches Some(d) && d@ == "Down"@,
{
    exact(KeyCode::Down, NO_MODIFIERS, "Down")
}

pub fn arrow_up() -> (r: Combo)
    ensures
        r.pattern == KeyPattern::Exact(KeyEvent { code: KeyCode::Up, modifiers: NO_MODIFIERS }),
        r.desc matches Some(d) && d@ == "Up"@,
{
    exact(KeyCode::Up, NO_MODIFIERS, "Up")
}

pub fn enter() -> (r: Combo)
    ensures
        r.pattern == KeyPattern::Exact(KeyEvent { code: KeyCode::Enter, modifiers: NO_MODIFIERS }),
        r.desc matches Some(d) && d@ == "Enter"@,
{
    exact(KeyCode::Enter, NO_MODIFIERS, "Enter")
}

pub fn backspace() -> (r: Combo)
    ensures
        r.pattern == KeyPattern::Exact(KeyEvent { code: KeyCode::Backspace, modifiers: NO_MODIFIERS }),
        r.desc matches Some(d) && d@ == "Backspace"@,
{
    exact(KeyCode::Backspace, NO_MODIFIERS, "Backspace")
}

pub fn ctrl_backspace() -> (r: Combo)
    ensures
        r.pattern == KeyPattern::Exact(KeyEvent { code: KeyCode::Backspace, modifiers: CONTROL }),
        r.desc matches Some(d) && d@ == "C-Backspace"@,
{
    exact(KeyCode::Backspace, CONTROL, "C-Backspace")
}

pub fn f1() -> (r: Combo)
    ensures
        r.pattern == KeyPattern::Exact(KeyEvent { code: KeyCode::F(1), modifiers: NO_MODIFIERS }),
        r.desc matches Some(d) && d@ == "F1"@,
{
    exact(KeyCode::F(1), NO_MODIFIERS, "F1")
}

pub fn esc() -> (r: Combo)
    ensures
        r.pattern == KeyPattern::Exact(KeyEvent { code: KeyCode::Esc, modifiers: NO_MODIFIERS }),
        r.desc matches Some(d) && d@ == "Esc"@,
{
    exact(KeyCode::Esc, NO_MODIFIERS, "Esc")
}

} // verus!
