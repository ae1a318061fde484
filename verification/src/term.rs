//! The terminal control sequences the redraw protocol emits, obtained from
//! termion. Every function here is a trusted wrapper: its contract states
//! the exact sequence that termion's source writes.

use vstd::prelude::*;
use crate::text::dec_of;

verus! {

/// What `termion::clear::AfterCursor` writes.
pub open spec fn clear_after_of() -> Seq<char> {
    "\x1b[J"@
}

/// What `termion::clear::CurrentLine` writes.
pub open spec fn clear_line_of() -> Seq<char> {
    "\x1b[2K"@
}

/// What `termion::cursor::Up(n)` writes.
pub open spec fn cursor_up_of(n: u16) -> Seq<char> {
    "\x1b["@ + dec_of(n as nat) + "A"@
}

/// What `termion::cursor::Down(n)` writes.
pub open spec fn cursor_down_of(n: u16) -> Seq<char> {
    "\x1b["@ + dec_of(n as nat) + "B"@
}

/// What `termion::cursor::Right(n)` writes.
pub open spec fn cursor_right_of(n: u16) -> Seq<char> {
    "\x1b["@ + dec_of(n as nat) + "C"@
}

/// What `termion::cursor::Goto(x, y)` writes: row `y` first, both
/// one-based.
pub open spec fn cursor_goto_of(x: u16, y: u16) -> Seq<char> {
    "\x1b["@ + dec_of(y as nat) + ";"@ + dec_of(x as nat) + "H"@
}

/// What `termion::cursor::Hide` writes.
pub open spec fn cursor_hide_of() -> Seq<char> {
    "\x1b[?25l"@
}

/// What `termion::cursor::Show` writes.
pub open spec fn cursor_show_of() -> Seq<char> {
    "\x1b[?25h"@
}

/// The widget's construction-time precondition on the terminal: at least
/// 46 rows and 29 columns. The caller checks this once before entering raw
/// mode and refuses to run on a smaller screen.
pub fn screen_large_enough(rows: u16, cols: u16) -> (r: bool)
    ensures
        r == (rows >= 46 && cols >= 29),
{
    rows >= 46 && cols >= 29
}

/// Relies on `termion::clear::AfterCursor`'s `Display` impl: the CSI
/// sequence `ESC [ J`.
#[verifier::external_body]
pub fn clear_after() -> (r: String)
    ensures
        r@ == clear_after_of(),
{
    termion::clear::AfterCursor.to_string()
}

/// Relies on `termion::clear::CurrentLine`'s `Display` impl: the CSI
/// sequence `ESC [ 2 K`.
#[verifier::external_body]
pub fn clear_line() -> (r: String)
    ensures
        r@ == clear_line_of(),
{
    termion::clear::CurrentLine.to_string()
}

/// Relies on `termion::cursor::Up`'s `Display` impl: `ESC [ n A` with `n`
/// in decimal.
#[verifier::external_body]
pub fn cursor_up(n: u16) -> (r: String)
    ensures
        r@ == cursor_up_of(n),
{
    termion::cursor::Up(n).to_string()
}

/// Relies on `termion::cursor::Down`'s `Display` impl: `ESC [ n B` with
/// `n` in decimal.
#[verifier::external_body]
pub fn cursor_down(n: u16) -> (r: String)
    ensures
        r@ == cursor_down_of(n),
{
    termion::cursor::Down(n).to_string()
}

/// Relies on `termion::cursor::Right`'s `Display` impl: `ESC [ n C` with
/// `n` in decimal.
#[verifier::external_body]
pub fn cursor_right(n: u16) -> (r: String)
    ensures
        r@ == cursor_right_of(n),
{
    termion::cursor::Right(n).to_string()
}

/// Relies on `termion::cursor::Goto`'s `Display` impl: `ESC [ y ; x H` in
/// decimal. Goto is one-based, and termion asserts that it is not handed
/// `(0, 0)`.
#[verifier::external_body]
pub fn cursor_goto(x: u16, y: u16) -> (r: String)
    requires
        !(x == 0 && y == 0),
    ensures
        r@ == cursor_goto_of(x, y),
{
    termion::cursor::Goto(x, y).to_string()
}

/// Relies on `termion::cursor::Hide`'s `Display` impl: the CSI sequence
/// `ESC [ ? 2 5 l`.
#[verifier::external_body]
pub fn hide_cursor_seq() -> (r: String)
    ensures
        r@ == cursor_hide_of(),
{
    termion::cursor::Hide.to_string()
}

/// Relies on `termion::cursor::Show`'s `Display` impl: the CSI sequence
/// `ESC [ ? 2 5 h`.
#[verifier::external_body]
pub fn show_cursor_seq() -> (r: String)
    ensures
        r@ == cursor_show_of(),
{
    termion::cursor::Show.to_string()
}

} // verus!
