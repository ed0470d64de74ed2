//! The splash screen.

use vstd::prelude::*;
use vstd::string::*;
use crate::frame::{Frame, FrameView};
use crate::key::Key;
use crate::term::{cursor_goto, goto_text};

verus! {

/// The splash screen: a banner in the middle of the terminal.
#[derive(Debug)]
pub struct Intro {}

/// The narrowest terminal that the banner can be centred on: its second
/// line starts seven columns left of the middle.
pub const MIN_WIDTH: u16 = 14;

impl Intro {
    /// The splash screen.
    pub fn new() -> (intro: Intro)
        ensures
            intro == (Intro {}),
    {
        Intro {}
    }

    /// The frame that follows `key`, and the directory to list for it.
    ///
    /// Escape ends the session. `f` asks for the listing of the working
    /// directory and keeps the intro until the listing is there. Every other
    /// key does nothing.
    pub open spec fn after(key: Key) -> (FrameView, Option<Seq<char>>) {
        if key is Escape {
            (FrameView::End, None)
        } else if key == Key::Char('f') {
            (FrameView::Intro, Some("."@))
        } else {
            (FrameView::Intro, None)
        }
    }

    /// Handles one key: see [`Intro::after`].
    pub fn manage_key(self, key: Key) -> (r: (Frame, Option<String>))
        ensures
            r.0@ == Self::after(key).0,
            r.1.deep_view() == Self::after(key).1,
    {
        match key {
            Key::Escape => (Frame::End, None),
            Key::Char(c) => {
                if c == 'f' {
                    (Frame::Intro(self), Some(String::from_str(".")))
                } else {
                    (Frame::Intro(self), None)
                }
            },
            _ => (Frame::Intro(self), None),
        }
    }

    /// The banner on a terminal of `w` columns and `h` rows: the short line
    /// three columns left of the middle, in the row at a third of the
    /// height, and the long line seven columns left of the middle, two rows
    /// further down.
    pub open spec fn banner(w: u16, h: u16) -> Seq<char> {
        goto_text((w / 2 - 3) as nat, (h / 3) as nat)
            + "BetTer"@
            + goto_text((w / 2 - 7) as nat, (h / 3 + 2) as nat)
            + "Better  Terminal"@
    }

    /// Draws the banner for the size that the terminal has now: see
    /// [`Intro::banner`]. Nothing is kept from one call to the next.
    pub fn draw(&self, w: u16, h: u16) -> (out: String)
        requires
            w >= MIN_WIDTH,
        ensures
            out@ == Self::banner(w, h),
    {
        let mut out = cursor_goto(w / 2 - 3, h / 3);
        out.append("BetTer");
        let second = cursor_goto(w / 2 - 7, h / 3 + 2);
        out.append(second.as_str());
        out.append("Better  Terminal");
        out
    }
}

} // verus!
