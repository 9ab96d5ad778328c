//! Turning a result into text for the calling shell.
use crate::browse::Action;
use crate::storage::{simplified_text, simplify_path};
use vstd::prelude::*;

verus! {

/// The shell syntax of the output, or plain text.
#[derive(Debug, Clone, Copy, PartialEq, Eq, Structural)]
pub enum OutputType {
    Plain,
    Posix,
    Fish,
    PowerShell,
}

impl Default for OutputType {
    fn default() -> (r: Self)
        ensures
            r == OutputType::Plain,
    {
        OutputType::Plain
    }
}

/// Something that can be written out for a shell.
pub trait Output {
    /// The text written for `out_type`, if any.
    spec fn output_text(&self, out_type: OutputType) -> Option<Seq<char>>;

    fn to_output(&self, out_type: OutputType) -> (r: Option<String>)
        ensures
            match self.output_text(out_type) {
                Some(t) => r matches Some(s) && s@ == t,
                None => r is None,
            },
    ;
}

impl Output for () {
    open spec fn output_text(&self, out_type: OutputType) -> Option<Seq<char>> {
        None
    }

    fn to_output(&self, out_type: OutputType) -> (r: Option<String>) {
        None
    }
}

impl<A: Output> Output for Option<A> {
    open spec fn output_text(&self, out_type: OutputType) -> Option<Seq<char>> {
        match self {
            Some(out) => out.output_text(out_type),
            None => None,
        }
    }

    fn to_output(&self, out_type: OutputType) -> (r: Option<String>) {
        match self {
            Some(out) => out.to_output(out_type),
            None => None,
        }
    }
}

/// An editor is configured when the editor variable holds a non-empty value.
pub fn is_editor_set(editor: Option<&str>) -> (r: bool)
    ensures
        r == (editor matches Some(e) && e@.len() > 0),
{
    match editor {
        Some(e) => e.unicode_len() > 0,
        None => false,
    }
}

/// `text` wrapped in single quotes.
pub open spec fn quoted(text: Seq<char>) -> Seq<char> {
    "'"@ + text + "'"@
}

/// The shell text for changing to `path`.
pub open spec fn change_dir_text(path: Seq<char>, out_type: OutputType) -> Seq<char> {
    match out_type {
        OutputType::Plain => path,
        OutputType::Posix | OutputType::Fish => "cd "@ + path,
        OutputType::PowerShell => "Push-Location "@ + quoted(path),
    }
}

/// The shell text for opening `path` in the editor.
pub open spec fn open_in_editor_text(path: Seq<char>, out_type: OutputType, editor_set: bool) -> Seq<
    char,
> {
    if editor_set {
        match out_type {
            OutputType::Plain => path,
            OutputType::Posix | OutputType::Fish => "$EDITOR "@ + quoted(path),
            OutputType::PowerShell => "Push-Location "@ + quoted(path),
        }
    } else {
        match out_type {
            OutputType::Plain => "$EDITOR environment variable is not set"@,
            OutputType::Posix | OutputType::Fish => "echo \"\\$EDITOR environment variable is not set\""@,
            OutputType::PowerShell => "Push-Location "@ + quoted(path),
        }
    }
}

fn quote(text: &str) -> (r: String)
    ensures
        r@ == quoted(text@),
{
    let mut out = String::from_str("'");
    out.append(text);
    out.append("'");
    out
}

fn prefixed(prefix: &str, text: &str) -> (r: String)
    ensures
        r@ == prefix@ + text@,
{
    let mut out = String::from_str(prefix);
    out.append(text);
    out
}

impl Action {
    /// The shell text for this action, with `path` standing for its destination.
    pub fn render(&self, path: &str, out_type: OutputType, editor_set: bool) -> (r: String)
        ensures
            r@ == match self {
                Action::ChangeDirAction { .. } => change_dir_text(path@, out_type),
                Action::OpenInEditorAction { .. } => open_in_editor_text(path@, out_type, editor_set),
            },
    {
        match self {
            Action::ChangeDirAction { .. } => match out_type {
                OutputType::Plain => String::from_str(path),
                OutputType::Posix | OutputType::Fish => prefixed("cd ", path),
                OutputType::PowerShell => prefixed("Push-Location ", quote(path).as_str()),
            },
            Action::OpenInEditorAction { .. } => if editor_set {
                match out_type {
                    OutputType::Plain => String::from_str(path),
                    OutputType::Posix | OutputType::Fish => prefixed("$EDITOR ", quote(path).as_str()),
                    OutputType::PowerShell => prefixed("Push-Location ", quote(path).as_str()),
                }
            } else {
                match out_type {
                    OutputType::Plain => String::from_str("$EDITOR environment variable is not set"),
                    OutputType::Posix | OutputType::Fish => String::from_str(
                        "echo \"\\$EDITOR environment variable is not set\"",
                    ),
                    OutputType::PowerShell => prefixed("Push-Location ", quote(path).as_str()),
                }
            },
        }
    }

    /// The shell text for this action, with its destination simplified;
    /// `editor_set` says whether an editor is configured.
    pub fn to_output(&self, out_type: OutputType, editor_set: bool) -> (r: Option<String>)
        ensures
            r matches Some(s) && s@ == match self {
                Action::ChangeDirAction { dest } => change_dir_text(simplified_text(dest@), out_type),
                Action::OpenInEditorAction { dest } => open_in_editor_text(
                    simplified_text(dest@),
                    out_type,
                    editor_set,
                ),
            },
    {
        let dest = match self {
            Action::ChangeDirAction { dest } => dest,
            Action::OpenInEditorAction { dest } => dest,
        };
        let simple = simplify_path(dest.as_str());
        Some(self.render(simple.as_str(), out_type, editor_set))
    }
}

} // verus!
