//! Diagnostics: where the data lives and how many bookmarks there are.
use crate::shell::{Output, OutputType};
use vstd::prelude::*;

verus! {

pub struct Diag {
    pub data_dir: String,
    pub bookmark_count: usize,
}

/// The decimal digit for `d < 10`.
pub open spec fn digit(d: nat) -> char {
    seq!['0', '1', '2', '3', '4', '5', '6', '7', '8', '9'][d as int]
}

/// `n` written in decimal.
pub open spec fn decimal(n: nat) -> Seq<char>
    decreases n,
{
    if n < 10 {
        seq![digit(n)]
    } else {
        decimal(n / 10) + seq![digit(n % 10)]
    }
}

/// Relies on `usize`'s `Display`: the decimal digits, without sign or padding.
#[verifier::external_body]
fn decimal_text(n: usize) -> (r: String)
    ensures
        r@ == decimal(n as nat),
{
    format!("{}", n)
}

/// The lines that `diag` prints.
pub open spec fn diag_text(data_dir: Seq<char>, count: nat) -> Seq<char> {
    "Data directory: "@ + data_dir + "\n"@ + "Bookmark count: "@ + decimal(count) + "\n"@
}

impl Diag {
    pub fn text(&self) -> (r: String)
        ensures
            r@ == diag_text(self.data_dir@, self.bookmark_count as nat),
    {
        let mut out = String::from_str("Data directory: ");
        out.append(self.data_dir.as_str());
        out.append("\n");
        out.append("Bookmark count: ");
        let count = decimal_text(self.bookmark_count);
        out.append(count.as_str());
        out.append("\n");
        out
    }
}

impl Output for Diag {
    open spec fn output_text(&self, out_type: OutputType) -> Option<Seq<char>> {
        Some(diag_text(self.data_dir@, self.bookmark_count as nat))
    }

    fn to_output(&self, out_type: OutputType) -> (r: Option<String>) {
        Some(self.text())
    }
}

} // verus!
