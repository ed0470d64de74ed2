//! The frame: the one state that the screen is in.

use vstd::prelude::*;
use crate::dir::{Dir, DirView};
use crate::intro::{Intro, MIN_WIDTH};
use crate::key::Key;

verus! {

/// What is on the screen: nothing any more, the splash screen, or a
/// directory. A key turns one frame into the next; the old one is gone.
#[derive(Debug)]
pub enum Frame {
    /// The session is over.
    End,
    Intro(Intro),
    Dir(Dir),
}

/// What a [`Frame`] holds.
pub enum FrameView {
    End,
    Intro,
    Dir(DirView),
}

impl View for Frame {
    type V = FrameView;

    open spec fn view(&self) -> FrameView {
        match self {
            Frame::End => FrameView::End,
            Frame::Intro(_) => FrameView::Intro,
            Frame::Dir(dir) => FrameView::Dir(dir@),
        }
    }
}

impl FrameView {
    /// A directory frame has its cursor in range.
    pub open spec fn wf(self) -> bool {
        self matches FrameView::Dir(dir) ==> dir.wf()
    }

    /// The frame that follows `key`, and the directory to list for it.
    ///
    /// Where a directory is named, the frame stays until its listing is
    /// there; the listing then replaces the frame. The end is final: no
    /// key leads out of it.
    pub open spec fn after(self, key: Key) -> (FrameView, Option<Seq<char>>) {
        match self {
            FrameView::End => (FrameView::End, None),
            FrameView::Intro => Intro::after(key),
            FrameView::Dir(dir) => dir.after(key),
        }
    }

    /// The frame after a run of keys, one after the other, while no listing
    /// comes in between.
    pub open spec fn after_keys(self, keys: Seq<Key>) -> FrameView
        decreases keys.len(),
    {
        if keys.len() == 0 {
            self
        } else {
            self.after_keys(keys.drop_last()).after(keys.last()).0
        }
    }

    /// What the frame writes on a terminal of `w` columns and `h` rows, with
    /// `highlight` in front of a selected line. The end writes nothing.
    pub open spec fn picture(self, w: u16, h: u16, highlight: Seq<char>) -> Seq<char> {
        match self {
            FrameView::End => Seq::empty(),
            FrameView::Intro => Intro::banner(w, h),
            FrameView::Dir(dir) => dir.picture(highlight),
        }
    }
}

/// `key`, pressed `n` times.
pub open spec fn repeated(key: Key, n: nat) -> Seq<Key> {
    Seq::new(n, |i: int| key)
}

/// No key takes a frame's cursor out of range.
pub proof fn lemma_after_keeps_wf(frame: FrameView, key: Key)
    requires
        frame.wf(),
    ensures
        frame.after(key).0.wf(),
{
    if let FrameView::Dir(dir) = frame {
        dir.lemma_after_keeps_wf(key);
    }
}

/// The intro stays up under every run of keys that holds no Escape. Of
/// these keys only `f` asks for a listing, and the intro gives way once that
/// listing is there.
pub proof fn lemma_intro_stays(keys: Seq<Key>)
    requires
        forall|i: int| 0 <= i < keys.len() ==> !(keys[i] is Escape),
    ensures
        FrameView::Intro.after_keys(keys) == FrameView::Intro,
        forall|i: int|
            0 <= i < keys.len() ==> (FrameView::Intro.after(keys[i]).1 is Some <==> keys[i]
                == Key::Char('f')),
    decreases keys.len(),
{
    if keys.len() > 0 {
        lemma_intro_stays(keys.drop_last());
    }
}

/// The end is final: whatever keys follow, the frame is the end.
pub proof fn lemma_end_is_final(keys: Seq<Key>)
    ensures
        FrameView::End.after_keys(keys) == FrameView::End,
    decreases keys.len(),
{
    if keys.len() > 0 {
        lemma_end_is_final(keys.drop_last());
    }
}

/// Where the cursor of `dir` stands after `m` moves down, for `m` up to the
/// number of entries.
proof fn lemma_downs(dir: DirView, m: nat)
    requires
        dir.wf(),
        m <= dir.entries.len(),
        dir.entries.len() > 0,
    ensures
        FrameView::Dir(dir).after_keys(repeated(Key::Char('j'), m)) == FrameView::Dir(
            DirView {
                cursor: if dir.cursor + m < dir.entries.len() {
                    dir.cursor + m
                } else {
                    (dir.cursor + m - dir.entries.len()) as nat
                },
                ..dir
            },
        ),
    decreases m,
{
    let keys = repeated(Key::Char('j'), m);
    if m > 0 {
        let before = repeated(Key::Char('j'), (m - 1) as nat);
        assert(keys.drop_last() =~= before);
        lemma_downs(dir, (m - 1) as nat);
        let at = FrameView::Dir(dir).after_keys(before)->Dir_0;
        at.lemma_moves();
    }
}

/// Where the cursor of `dir` stands after `m` moves up, for `m` up to the
/// number of entries.
proof fn lemma_ups(dir: DirView, m: nat)
    requires
        dir.wf(),
        m <= dir.entries.len(),
        dir.entries.len() > 0,
    ensures
        FrameView::Dir(dir).after_keys(repeated(Key::Char('k'), m)) == FrameView::Dir(
            DirView {
                cursor: if dir.cursor >= m {
                    (dir.cursor - m) as nat
                } else {
                    (dir.cursor + dir.entries.len() - m) as nat
                },
                ..dir
            },
        ),
    decreases m,
{
    let keys = repeated(Key::Char('k'), m);
    if m > 0 {
        let before = repeated(Key::Char('k'), (m - 1) as nat);
        assert(keys.drop_last() =~= before);
        lemma_ups(dir, (m - 1) as nat);
        let at = FrameView::Dir(dir).after_keys(before)->Dir_0;
        at.lemma_moves();
    }
}

/// The cursor walks in a circle: in a listing with entries, as many `j` as
/// there are entries bring it back to where it stood, and so do as many
/// `k`. Nothing else changes on the way.
pub proof fn lemma_cursor_cycles(dir: DirView)
    requires
        dir.wf(),
        dir.entries.len() >= 1,
    ensures
        FrameView::Dir(dir).after_keys(repeated(Key::Char('j'), dir.entries.len()))
            == FrameView::Dir(dir),
        FrameView::Dir(dir).after_keys(repeated(Key::Char('k'), dir.entries.len()))
            == FrameView::Dir(dir),
{
    lemma_downs(dir, dir.entries.len());
    lemma_ups(dir, dir.entries.len());
}

/// In a listing without entries `j` and `k` leave everything as it is,
/// however often they come.
pub proof fn lemma_empty_listing_is_still(dir: DirView, keys: Seq<Key>)
    requires
        dir.entries.len() == 0,
        forall|i: int|
            0 <= i < keys.len() ==> keys[i] == Key::Char('j') || keys[i] == Key::Char('k'),
    ensures
        FrameView::Dir(dir).after_keys(keys) == FrameView::Dir(dir),
    decreases keys.len(),
{
    if keys.len() > 0 {
        lemma_empty_listing_is_still(dir, keys.drop_last());
    }
}

impl Frame {
    /// The frame that a session starts with.
    pub fn begin() -> (frame: Frame)
        ensures
            frame@ == FrameView::Intro,
    {
        Frame::Intro(Intro::new())
    }

    /// Whether the session is over.
    pub fn is_end(&self) -> (b: bool)
        ensures
            b == (self@ is End),
    {
        matches!(self, Frame::End)
    }

    /// Whether drawing this frame takes the size of the terminal.
    pub fn is_intro(&self) -> (b: bool)
        ensures
            b == (self@ is Intro),
    {
        matches!(self, Frame::Intro(_))
    }

    /// Handles one key: see [`FrameView::after`].
    pub fn manage_key(self, key: Key) -> (r: (Frame, Option<String>))
        ensures
            r.0@ == self@.after(key).0,
            r.1.deep_view() == self@.after(key).1,
    {
        match self {
            Frame::End => (Frame::End, None),
            Frame::Intro(intro) => intro.manage_key(key),
            Frame::Dir(dir) => dir.manage_key(key),
        }
    }

    /// Draws the frame: see [`FrameView::picture`]. Only the intro looks at
    /// the size, and it needs room for its banner.
    pub fn draw(&self, w: u16, h: u16, highlight: &str) -> (out: String)
        requires
            self@ is Intro ==> w >= MIN_WIDTH,
        ensures
            out@ == self@.picture(w, h, highlight@),
    {
        match self {
            Frame::End => String::new(),
            Frame::Intro(intro) => intro.draw(w, h),
            Frame::Dir(dir) => dir.draw(highlight),
        }
    }
}

} // verus!
