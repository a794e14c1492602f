//! How a label is set off on a terminal.

use vstd::prelude::*;
use vstd::string::*;

verus! {

/// The control sequences written around a label: `bold` and `color` before
/// it, `reset` at the start of the line after it.
#[derive(Clone, Debug, PartialEq, Eq)]
pub struct LabelStyle {
    pub bold: String,
    pub color: String,
    pub reset: String,
}

impl View for LabelStyle {
    type V = (Seq<char>, Seq<char>, Seq<char>);

    open spec fn view(&self) -> Self::V {
        (self.bold@, self.color@, self.reset@)
    }
}

/// The sequence that switches to bold text.
pub open spec fn bold_code() -> Seq<char> {
    "\x1B[1m"@
}

/// The sequence that switches to a blue foreground.
pub open spec fn blue_code() -> Seq<char> {
    "\x1B[38;5;4m"@
}

/// The sequence that switches all attributes off.
pub open spec fn reset_code() -> Seq<char> {
    "\x1B[m"@
}

/// The style with colors switched on.
pub open spec fn colored_style() -> (Seq<char>, Seq<char>, Seq<char>) {
    (bold_code(), blue_code(), reset_code())
}

/// The style with colors switched off: bold and reset stay.
pub open spec fn plain_style() -> (Seq<char>, Seq<char>, Seq<char>) {
    (bold_code(), Seq::empty(), reset_code())
}

/// What `termion::style::Bold` displays as: always the bold sequence.
#[verifier::external_body]
fn bold() -> (code: String)
    ensures
        code@ == bold_code(),
{
    format!("{}", termion::style::Bold)
}

/// What `termion::style::Reset` displays as: always the reset sequence.
#[verifier::external_body]
fn reset() -> (code: String)
    ensures
        code@ == reset_code(),
{
    format!("{}", termion::style::Reset)
}

/// What `termion::color::Fg(termion::color::Blue)` displays as: the blue
/// sequence, or nothing where the process runs with colors disabled
/// (termion looks at `NO_COLOR`), so either may come back.
#[verifier::external_body]
fn blue() -> (code: String)
    ensures
        code@ == blue_code() || code@ == Seq::<char>::empty(),
{
    format!("{}", termion::color::Fg(termion::color::Blue))
}

impl LabelStyle {
    /// The style for the terminal the process writes to: colored, or plain
    /// where colors are disabled.
    pub fn terminal() -> (style: LabelStyle)
        ensures
            style@ == colored_style() || style@ == plain_style(),
    {
        LabelStyle { bold: bold(), color: blue(), reset: reset() }
    }
}

} // verus!
