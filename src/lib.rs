//! Interactive bookmark browser: the input buffer, the ranked selection of
//! candidates, the modal key bindings, and the state machine that turns key
//! events into new states or a final action.
use vstd::prelude::*;

pub mod bookmarks;
pub mod browse;
pub mod cli;
pub mod diag;
pub mod highlight;
pub mod keys;
pub mod plug;
pub mod search;
pub mod session;
pub mod shell;
pub mod storage;
pub mod text;

verus! {

} // verus!
