//! The options of each subcommand, as plain values.
use vstd::prelude::*;

verus! {

/// Options of `add`: the destination (the current directory when absent),
/// the bookmark's name (the destination's name when absent), and whether to
/// replace a bookmark of the same name.
#[derive(Debug)]
pub struct AddCmd {
    pub force: bool,
    pub dest: Option<String>,
    pub name: Option<String>,
}

/// Options of `browse`: none.
#[derive(Debug)]
pub struct BrowseCmd {}

/// Options of `plug`: the name of the shell function to define.
#[derive(Debug)]
pub struct PlugCmd {
    pub name: String,
}

/// Options of `diag`: none.
#[derive(Debug)]
pub struct DiagCmd {}

} // verus!
