//! A directory as it was listed once, and the cursor that walks it.

use vstd::prelude::*;
use vstd::string::*;
use vstd::arithmetic::div_mod::{
    lemma_mod_add_multiples_vanish, lemma_mod_self_0, lemma_small_mod,
};
use crate::frame::{Frame, FrameView};
use crate::intro::Intro;
use crate::key::Key;
use crate::term::{cursor_goto, fg_reset, goto_text, reset_text};

verus! {

/// One child of a listed directory.
#[derive(Debug)]
pub struct Entry {
    /// The child's path, as it is shown and as it is listed in turn.
    pub path: String,
    /// Whether the child is itself a directory.
    pub is_dir: bool,
}

/// What an [`Entry`] holds.
pub struct EntryView {
    pub path: Seq<char>,
    pub is_dir: bool,
}

impl View for Entry {
    type V = EntryView;

    open spec fn view(&self) -> EntryView {
        EntryView { path: self.path@, is_dir: self.is_dir }
    }
}

/// The entries of a listing, in its order.
pub open spec fn entries_view(entries: Seq<Entry>) -> Seq<EntryView> {
    Seq::new(entries.len(), |i: int| entries[i]@)
}

/// A listing and the index of the entry that is selected.
///
/// The entries stay in the order in which they were listed and are never
/// changed one by one: a directory is entered by building a new `Dir`.
/// The cursor of a listing with entries points at one of them; that of an
/// empty listing rests at zero.
#[derive(Debug)]
pub struct Dir {
    entries: Vec<Entry>,
    cursor: usize,
}

/// What a [`Dir`] holds: the entries in listing order and the cursor.
pub struct DirView {
    pub entries: Seq<EntryView>,
    pub cursor: nat,
}

impl DirView {
    /// The cursor points at an entry, or rests at zero where there is none.
    pub open spec fn wf(self) -> bool {
        if self.entries.len() == 0 {
            self.cursor == 0
        } else {
            self.cursor < self.entries.len()
        }
    }

    /// The cursor one entry further, wrapping from the last to the first.
    /// An empty listing stays as it is.
    pub open spec fn down(self) -> DirView {
        if self.entries.len() == 0 {
            self
        } else {
            DirView {
                cursor: ((self.cursor + 1) as int % self.entries.len() as int) as nat,
                ..self
            }
        }
    }

    /// The cursor one entry back, wrapping from the first to the last.
    /// An empty listing stays as it is.
    pub open spec fn up(self) -> DirView {
        if self.entries.len() == 0 {
            self
        } else {
            DirView {
                cursor: ((self.cursor + self.entries.len() - 1) as int
                    % self.entries.len() as int) as nat,
                ..self
            }
        }
    }

    /// A move of the cursor, said without the remainder: it steps to the
    /// neighbour, and from the last entry to the first or back. Either way
    /// it stays in range.
    pub proof fn lemma_moves(self)
        requires
            self.wf(),
            self.entries.len() > 0,
        ensures
            self.down().cursor == (if self.cursor + 1 == self.entries.len() {
                0
            } else {
                self.cursor + 1
            }),
            self.up().cursor == (if self.cursor == 0 {
                self.entries.len() - 1
            } else {
                self.cursor - 1
            }),
            self.down().wf(),
            self.up().wf(),
    {
        let n = self.entries.len() as int;
        let c = self.cursor as int;
        if c + 1 == n {
            lemma_mod_self_0(n);
        } else {
            lemma_small_mod((c + 1) as nat, n as nat);
        }
        if c == 0 {
            lemma_small_mod((n - 1) as nat, n as nat);
        } else {
            lemma_mod_add_multiples_vanish(c - 1, n);
            lemma_small_mod((c - 1) as nat, n as nat);
        }
    }

    /// No key takes the cursor out of range.
    pub proof fn lemma_after_keeps_wf(self, key: Key)
        requires
            self.wf(),
        ensures
            self.after(key).0.wf(),
    {
        if self.entries.len() > 0 {
            self.lemma_moves();
        }
    }

    /// The path of the entry under the cursor, if there is an entry.
    pub open spec fn selected(self) -> Option<Seq<char>> {
        if self.cursor < self.entries.len() {
            Some(self.entries[self.cursor as int].path)
        } else {
            None
        }
    }

    /// The frame that follows `key`, and the directory to list for it.
    ///
    /// Escape leaves for the intro. `j` and `k` move the cursor. Enter asks
    /// for the listing of the selected entry and keeps this frame until the
    /// listing is there; where nothing is selected it does nothing. Every
    /// other key does nothing.
    pub open spec fn after(self, key: Key) -> (FrameView, Option<Seq<char>>) {
        if key is Escape {
            (FrameView::Intro, None)
        } else if key == Key::Char('j') {
            (FrameView::Dir(self.down()), None)
        } else if key == Key::Char('k') {
            (FrameView::Dir(self.up()), None)
        } else if key.is_enter() {
            (FrameView::Dir(self), self.selected())
        } else {
            (FrameView::Dir(self), None)
        }
    }

    /// The line of one entry: three blanks, the path, a slash behind a
    /// directory, and the line break. The selected line stands between
    /// `highlight` and the reset of the foreground.
    pub open spec fn line(entry: EntryView, selected: bool, highlight: Seq<char>) -> Seq<char> {
        (if selected { highlight } else { Seq::empty() })
            + "   "@
            + entry.path
            + (if entry.is_dir { "/"@ } else { Seq::empty() })
            + "\n\r"@
            + (if selected { reset_text() } else { Seq::empty() })
    }

    /// The lines of the first `n` entries, one after the other.
    pub open spec fn lines(self, n: nat, highlight: Seq<char>) -> Seq<char>
        decreases n,
    {
        if n == 0 {
            Seq::empty()
        } else {
            self.lines((n - 1) as nat, highlight)
                + Self::line(self.entries[n - 1], n - 1 == self.cursor, highlight)
        }
    }

    /// The whole frame: the cursor goes to the first column of the second
    /// row, then every entry gets its line, in listing order.
    pub open spec fn picture(self, highlight: Seq<char>) -> Seq<char> {
        goto_text(1, 2) + self.lines(self.entries.len(), highlight)
    }
}

impl View for Dir {
    type V = DirView;

    closed spec fn view(&self) -> DirView {
        DirView { entries: entries_view(self.entries@), cursor: self.cursor as nat }
    }
}

impl Dir {
    #[verifier::type_invariant]
    spec fn inv(self) -> bool {
        self@.wf()
    }

    /// A fresh listing, with the cursor on its first entry.
    pub fn new(entries: Vec<Entry>) -> (dir: Dir)
        ensures
            dir@ == (DirView { entries: entries_view(entries@), cursor: 0 }),
            dir@.wf(),
    {
        Dir { entries, cursor: 0 }
    }

    /// The index of the selected entry.
    pub fn cursor(&self) -> (i: usize)
        ensures
            i == self@.cursor,
            self@.wf(),
    {
        proof {
            use_type_invariant(self);
        }
        self.cursor
    }

    /// The entries, in listing order.
    pub fn entries(&self) -> (entries: &Vec<Entry>)
        ensures
            entries_view(entries@) == self@.entries,
    {
        &self.entries
    }

    /// Handles one key: see [`DirView::after`].
    pub fn manage_key(self, key: Key) -> (r: (Frame, Option<String>))
        ensures
            r.0@ == self@.after(key).0,
            r.1.deep_view() == self@.after(key).1,
    {
        proof {
            use_type_invariant(&self);
        }
        let mut dir = self;
        let len = dir.entries.len();
        match key {
            Key::Escape => (Frame::Intro(Intro::new()), None),
            Key::Char(c) => {
                if c == 'j' {
                    if len != 0 {
                        proof {
                            dir@.lemma_moves();
                        }
                        dir.cursor = if dir.cursor + 1 == len { 0 } else { dir.cursor + 1 };
                    }
                    (Frame::Dir(dir), None)
                } else if c == 'k' {
                    if len != 0 {
                        proof {
                            dir@.lemma_moves();
                        }
                        dir.cursor = if dir.cursor == 0 { len - 1 } else { dir.cursor - 1 };
                    }
                    (Frame::Dir(dir), None)
                } else if c == '\n' {
                    let open = dir.selected_path();
                    (Frame::Dir(dir), open)
                } else {
                    (Frame::Dir(dir), None)
                }
            },
            Key::Enter => {
                let open = dir.selected_path();
                (Frame::Dir(dir), open)
            },
            Key::Other => (Frame::Dir(dir), None),
        }
    }

    /// The path of the entry under the cursor, if there is an entry.
    pub fn selected_path(&self) -> (path: Option<String>)
        ensures
            path.deep_view() == self@.selected(),
    {
        if self.cursor < self.entries.len() {
            Some(self.entries[self.cursor].path.clone())
        } else {
            None
        }
    }

    /// Draws the frame, with `highlight` in front of the selected line: see
    /// [`DirView::picture`].
    pub fn draw(&self, highlight: &str) -> (out: String)
        ensures
            out@ == self@.picture(highlight@),
    {
        let mut out = cursor_goto(1, 2);
        let reset = fg_reset();
        let mut i: usize = 0;
        while i < self.entries.len()
            invariant
                i <= self.entries.len(),
                reset@ == reset_text(),
                out@ == goto_text(1, 2) + self@.lines(i as nat, highlight@),
            decreases self.entries.len() - i,
        {
            let entry = &self.entries[i];
            let mut line = String::new();
            if i == self.cursor {
                line.append(highlight);
            }
            line.append("   ");
            line.append(entry.path.as_str());
            if entry.is_dir {
                line.append("/");
            }
            line.append("\n\r");
            if i == self.cursor {
                line.append(reset.as_str());
            }
            assert(line@ =~= DirView::line(
                self@.entries[i as int],
                i == self@.cursor,
                highlight@,
            ));
            out.append(line.as_str());
            i += 1;
            assert(out@ =~= goto_text(1, 2) + self@.lines(i as nat, highlight@));
        }
        out
    }
}

} // verus!
