//! The snippet that integrates the browser into a shell as a function.
use crate::cli::PlugCmd;
use crate::shell::{Output, OutputType};
use crate::text::{replace_all, replaced};
use vstd::prelude::*;

verus! {

/// The function definition for POSIX shells; `{name}` stands for its name.
pub const POSIX_SCRIPT: &'static str = "{name}() {\n    eval \"$(shellmark --out posix \"$@\")\"\n}\n";

/// The function definition for fish.
pub const FISH_SCRIPT: &'static str = "function {name}\n    eval (shellmark --out fish $argv)\nend\n";

/// The function definition for PowerShell.
pub const POWERSHELL_SCRIPT: &'static str = "function {name} {\n    $out = shellmark --out powershell @args\n    if ($out) { Invoke-Expression ($out -join \"`n\") }\n}\n";

/// The placeholder for the function's name.
pub const NAME_SLOT: &'static str = "{name}";

/// The snippet for a shell, before the name is filled in.
pub open spec fn snippet(out_type: OutputType) -> Option<Seq<char>> {
    match out_type {
        OutputType::Plain => None,
        OutputType::Fish => Some(FISH_SCRIPT@),
        OutputType::PowerShell => Some(POWERSHELL_SCRIPT@),
        OutputType::Posix => Some(POSIX_SCRIPT@),
    }
}

/// The integration snippet to print.
pub struct PlugCommand {
    pub name: String,
}

pub fn plug_cmd(opts: PlugCmd) -> (r: PlugCommand)
    ensures
        r.name == opts.name,
{
    PlugCommand { name: opts.name }
}

pub fn inner_content(out_type: OutputType) -> (r: Option<&'static str>)
    ensures
        match snippet(out_type) {
            Some(t) => r matches Some(x) && x@ == t,
            None => r is None,
        },
{
    match out_type {
        OutputType::Plain => None,
        OutputType::Fish => Some(FISH_SCRIPT),
        OutputType::PowerShell => Some(POWERSHELL_SCRIPT),
        OutputType::Posix => Some(POSIX_SCRIPT),
    }
}

impl PlugCommand {
    /// The snippet for `out_type` with the function's name filled in.
    pub fn script(&self, out_type: OutputType) -> (r: Option<String>)
        ensures
            match snippet(out_type) {
                Some(t) => r matches Some(x) && x@ == replaced(t, NAME_SLOT@, self.name@),
                None => r is None,
            },
    {
        proof {
            reveal_strlit("{name}");
        }
        match inner_content(out_type) {
            Some(content) => Some(replace_all(content, NAME_SLOT, self.name.as_str())),
            None => None,
        }
    }
}

impl Output for PlugCommand {
    open spec fn output_text(&self, out_type: OutputType) -> Option<Seq<char>> {
        match snippet(out_type) {
            Some(t) => Some(replaced(t, NAME_SLOT@, self.name@)),
            None => None,
        }
    }

    fn to_output(&self, out_type: OutputType) -> (r: Option<String>) {
        self.script(out_type)
    }
}

} // verus!
