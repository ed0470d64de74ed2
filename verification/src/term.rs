//! The escape sequences that the frames are drawn with, rendered by `termion`.
//!
//! Each sequence has a spec function that spells it out and a function that
//! asks `termion` for it. The latter are believed, not proved.

use vstd::prelude::*;

verus! {

/// The character of the decimal digit `d`, for `d` below ten.
pub open spec fn digit(d: nat) -> char {
    (48 + d) as char
}

/// `n` in decimal, without sign or leading zeros.
pub open spec fn decimal(n: nat) -> Seq<char>
    decreases n,
{
    if n < 10 {
        seq![digit(n)]
    } else {
        decimal(n / 10).push(digit(n % 10))
    }
}

/// Clears the whole screen.
pub open spec fn clear_text() -> Seq<char> {
    "\x1b[2J"@
}

/// Hides the cursor.
pub open spec fn hide_text() -> Seq<char> {
    "\x1b[?25l"@
}

/// Shows the cursor.
pub open spec fn show_text() -> Seq<char> {
    "\x1b[?25h"@
}

/// Moves the cursor to column `x` of row `y`, both counted from one.
pub open spec fn goto_text(x: nat, y: nat) -> Seq<char> {
    "\x1b["@ + decimal(y) + ";"@ + decimal(x) + "H"@
}

/// Sets the foreground to light green.
pub open spec fn green_text() -> Seq<char> {
    "\x1b[38;5;10m"@
}

/// Sets the foreground back to the terminal's default.
pub open spec fn reset_text() -> Seq<char> {
    "\x1b[39m"@
}

/// What may switch the highlight on: the light green foreground, or nothing
/// where colours are turned off.
pub open spec fn is_highlight(s: Seq<char>) -> bool {
    s == green_text() || s == Seq::<char>::empty()
}

/// `termion::clear::All` through its `Display` impl. Believed: it writes the
/// fixed sequence CSI `2J`.
#[verifier::external_body]
pub(crate) fn clear_all() -> (s: String)
    ensures
        s@ == clear_text(),
{
    format!("{}", termion::clear::All)
}

/// `termion::cursor::Hide` through its `Display` impl. Believed: it writes
/// the fixed sequence CSI `?25l`.
#[verifier::external_body]
pub(crate) fn cursor_hide() -> (s: String)
    ensures
        s@ == hide_text(),
{
    format!("{}", termion::cursor::Hide)
}

/// `termion::cursor::Show` through its `Display` impl. Believed: it writes
/// the fixed sequence CSI `?25h`.
#[verifier::external_body]
pub(crate) fn cursor_show() -> (s: String)
    ensures
        s@ == show_text(),
{
    format!("{}", termion::cursor::Show)
}

/// `termion::cursor::Goto` through its `Display` impl. Believed: it writes
/// CSI, the row in decimal, `;`, the column in decimal and `H`. `termion`
/// asserts that the position is not (0, 0), so that position is left out.
#[verifier::external_body]
pub(crate) fn cursor_goto(x: u16, y: u16) -> (s: String)
    requires
        x != 0 || y != 0,
    ensures
        s@ == goto_text(x as nat, y as nat),
{
    format!("{}", termion::cursor::Goto(x, y))
}

/// `termion::color::Fg(LightGreen)` through its `Display` impl. Believed: it
/// writes CSI `38;5;10m`, or nothing at all when the environment turns
/// colours off (`NO_COLOR`); which of the two is not known here.
#[verifier::external_body]
pub(crate) fn fg_light_green() -> (s: String)
    ensures
        is_highlight(s@),
{
    format!("{}", termion::color::Fg(termion::color::LightGreen))
}

/// `termion::color::Fg(Reset)` through its `Display` impl. Believed: it
/// writes the fixed sequence CSI `39m`, whatever the environment says.
#[verifier::external_body]
pub(crate) fn fg_reset() -> (s: String)
    ensures
        s@ == reset_text(),
{
    format!("{}", termion::color::Fg(termion::color::Reset))
}

} // verus!
