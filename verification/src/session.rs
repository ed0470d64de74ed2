//! The session as a machine: what it holds, what each event does to it, and
//! what it answers.
//!
//! A turn of the loop polls a key, hands it to the frame, and draws the
//! frame. Between these the session may need a directory listed or the
//! terminal's size; it then asks and takes the turn up again when the answer
//! is there.

use vstd::prelude::*;
use crate::dir::{DirView, EntryView};
use crate::error::Error;
use crate::frame::FrameView;
use crate::intro::MIN_WIDTH;
use crate::key::Key;
use crate::term::{clear_text, goto_text, hide_text, is_highlight, show_text};

verus! {

/// The number of frames drawn between two clearings of the whole screen.
pub const PERIOD: u16 = 200;

/// What an [`Event`](crate::app::Event) holds.
pub enum EventView {
    Key(Option<Key>),
    Listed(Seq<EntryView>),
    Size(u16, u16),
    Failed(Error),
}

/// What a [`Next`](crate::app::Next) holds.
pub enum NextView {
    Poll,
    List(Seq<char>),
    Size,
    Exit(Result<(), Error>),
}

/// What an [`Action`](crate::app::Action) holds.
pub struct ActionView {
    pub out: Seq<char>,
    pub next: NextView,
}

/// What the session is waiting for.
pub enum WaitView {
    /// The next poll of the keyboard.
    Key,
    /// The listing of the directory at this path.
    Listing(Seq<char>),
    /// The size of the terminal.
    Size,
}

/// What an [`App`](crate::app::App) holds.
pub struct AppView {
    pub frame: FrameView,
    /// Frames left to draw until the screen is cleared, the one that clears
    /// it included.
    pub timer: nat,
    pub wait: WaitView,
    /// What is written in front of a selected line.
    pub highlight: Seq<char>,
}

/// What a session writes first: the cursor goes out of sight and the screen
/// is cleared.
pub open spec fn init_text() -> Seq<char> {
    hide_text() + clear_text()
}

/// What a session writes last: the screen is cleared, the cursor goes to
/// the top left corner and comes back into sight.
pub open spec fn deinit_text() -> Seq<char> {
    clear_text() + goto_text(1, 1) + show_text()
}

impl AppView {
    /// The countdown is running and the frame is sound.
    pub open spec fn wf(self) -> bool {
        &&& 1 <= self.timer <= PERIOD
        &&& self.frame.wf()
        &&& is_highlight(self.highlight)
    }

    /// The session is over.
    pub open spec fn done(self) -> bool {
        self.frame is End
    }

    /// A session that has just begun.
    pub open spec fn fresh(highlight: Seq<char>) -> AppView {
        AppView { frame: FrameView::Intro, timer: 1, wait: WaitView::Key, highlight }
    }

    /// The countdown one frame later, and what that frame starts with: the
    /// last frame of a period clears the screen and starts the next period.
    pub open spec fn tick(self) -> (nat, Seq<char>) {
        if self.timer == 1 {
            (PERIOD as nat, clear_text())
        } else {
            ((self.timer - 1) as nat, Seq::empty())
        }
    }

    /// The request that the session is waiting on.
    pub open spec fn request(self) -> NextView {
        match self.wait {
            WaitView::Key => NextView::Poll,
            WaitView::Listing(path) => NextView::List(path),
            WaitView::Size => NextView::Size,
        }
    }

    /// An event that does not answer the pending request changes nothing:
    /// the request is made again.
    pub open spec fn again(self) -> (AppView, ActionView) {
        (self, ActionView { out: Seq::empty(), next: self.request() })
    }

    /// The session ends: behind `text` the terminal is restored, and the
    /// loop is left with `result`.
    pub open spec fn close(self, text: Seq<char>, result: Result<(), Error>) -> (
        AppView,
        ActionView,
    ) {
        (
            AppView { frame: FrameView::End, wait: WaitView::Key, ..self },
            ActionView { out: text + deinit_text(), next: NextView::Exit(result) },
        )
    }

    /// The frame is drawn on a terminal of `w` columns and `h` rows, behind
    /// what the countdown puts first, and the next key is polled.
    pub open spec fn draw(self, w: u16, h: u16) -> (AppView, ActionView) {
        (
            AppView { timer: self.tick().0, wait: WaitView::Key, ..self },
            ActionView {
                out: self.tick().1 + self.frame.picture(w, h, self.highlight),
                next: NextView::Poll,
            },
        )
    }

    /// The rest of a turn, once the key has been dealt with. At the end the
    /// session closes. The intro asks for the terminal's size first, since
    /// it centres its banner anew each time. A directory is drawn at once.
    pub open spec fn proceed(self) -> (AppView, ActionView) {
        match self.frame {
            FrameView::End => (AppView { timer: self.tick().0, ..self }).close(
                self.tick().1,
                Ok(()),
            ),
            FrameView::Intro => (
                AppView { wait: WaitView::Size, ..self },
                ActionView { out: Seq::empty(), next: NextView::Size },
            ),
            FrameView::Dir(_) => self.draw(0, 0),
        }
    }

    /// The poll has come back. A key goes to the frame; where the frame
    /// names a directory, its listing is asked for before anything is
    /// drawn. Without a key, or with one that needs no listing, the turn
    /// goes on.
    pub open spec fn update(self, key: Option<Key>) -> (AppView, ActionView) {
        match key {
            None => self.proceed(),
            Some(key) => {
                let moved = AppView { frame: self.frame.after(key).0, ..self };
                match self.frame.after(key).1 {
                    Some(path) => (
                        AppView { wait: WaitView::Listing(path), ..moved },
                        ActionView { out: Seq::empty(), next: NextView::List(path) },
                    ),
                    None => moved.proceed(),
                }
            },
        }
    }

    /// The listing has come back: it becomes the frame, with the cursor on
    /// its first entry, in place of whatever was there.
    pub open spec fn enter(self, entries: Seq<EntryView>) -> AppView {
        AppView {
            frame: FrameView::Dir(DirView { entries, cursor: 0 }),
            wait: WaitView::Key,
            ..self
        }
    }

    /// One step of the session: the state after `event`, and the answer.
    ///
    /// A session that is over writes nothing and leaves again. A failure
    /// closes a running session, whatever it was waiting for. An event that
    /// answers the pending request carries the turn on; any other is
    /// ignored.
    pub open spec fn run(self, event: EventView) -> (AppView, ActionView) {
        if self.done() {
            (
                self,
                ActionView {
                    out: Seq::empty(),
                    next: NextView::Exit(
                        match event {
                            EventView::Failed(e) => Err(e),
                            _ => Ok(()),
                        },
                    ),
                },
            )
        } else {
            match event {
                EventView::Failed(e) => self.close(Seq::empty(), Err(e)),
                EventView::Key(key) => if self.wait is Key {
                    self.update(key)
                } else {
                    self.again()
                },
                EventView::Listed(entries) => if self.wait is Listing {
                    self.enter(entries).proceed()
                } else {
                    self.again()
                },
                EventView::Size(w, h) => if self.wait is Size {
                    self.draw(w, h)
                } else {
                    self.again()
                },
            }
        }
    }

    /// Whether `event` can be taken: the size of a terminal on which the
    /// intro is to be drawn leaves room for the banner.
    pub open spec fn accepts(self, event: EventView) -> bool {
        self.frame is Intro && self.wait is Size ==> (event matches EventView::Size(w, _) ==> w
            >= MIN_WIDTH)
    }
}

impl AppView {
    /// Whether `event` closes the session: it runs before and is over after.
    pub open spec fn closes(self, event: EventView) -> bool {
        !self.done() && self.run(event).0.done()
    }

    /// The session after a run of events, one after the other.
    pub open spec fn run_all(self, events: Seq<EventView>) -> AppView
        decreases events.len(),
    {
        if events.len() == 0 {
            self
        } else {
            self.run_all(events.drop_last()).run(events.last()).0
        }
    }

    /// How many of `events` close the session.
    pub open spec fn closings(self, events: Seq<EventView>) -> nat
        decreases events.len(),
    {
        if events.len() == 0 {
            0
        } else {
            self.closings(events.drop_last()) + (if self.run_all(events.drop_last()).closes(
                events.last(),
            ) {
                1nat
            } else {
                0nat
            })
        }
    }
}

/// A sound session stays sound: the countdown keeps running between one
/// and the period, the cursor stays in range, the highlight is kept.
pub proof fn lemma_run_keeps_wf(app: AppView, event: EventView)
    requires
        app.wf(),
    ensures
        app.run(event).0.wf(),
        app.run(event).0.highlight == app.highlight,
{
    if let EventView::Key(Some(key)) = event {
        crate::frame::lemma_after_keeps_wf(app.frame, key);
    }
}

/// The countdown is for the eye only: however far it has run, the same
/// event leads to the same frame, the same wait and the same request.
pub proof fn lemma_countdown_is_cosmetic(app: AppView, timer: nat, event: EventView)
    ensures
        ({
            let other = AppView { timer, ..app };
            &&& other.run(event).0.frame == app.run(event).0.frame
            &&& other.run(event).0.wait == app.run(event).0.wait
            &&& other.run(event).1.next == app.run(event).1.next
        }),
{
}

/// The keys of `keys`, each as the outcome of a poll.
pub open spec fn polled(keys: Seq<Key>) -> Seq<EventView> {
    Seq::new(keys.len(), |i: int| EventView::Key(Some(keys[i])))
}

/// A session that shows a directory and polls follows its keys: as long
/// as none of them is Escape or Enter, the frame after the polls is the
/// frame after the keys, and the next poll is due.
pub proof fn lemma_browsing_follows_keys(app: AppView, keys: Seq<Key>)
    requires
        app.frame is Dir,
        app.wait is Key,
        forall|i: int| 0 <= i < keys.len() ==> !(keys[i] is Escape) && !keys[i].is_enter(),
    ensures
        app.run_all(polled(keys)).frame == app.frame.after_keys(keys),
        app.run_all(polled(keys)).frame is Dir,
        app.run_all(polled(keys)).wait is Key,
    decreases keys.len(),
{
    if keys.len() > 0 {
        assert(polled(keys).drop_last() =~= polled(keys.drop_last()));
        lemma_browsing_follows_keys(app, keys.drop_last());
    }
}

/// A session with the intro up keeps it up under every run of events that
/// holds no failure, no Escape and no `f`.
pub proof fn lemma_intro_stays_up(app: AppView, events: Seq<EventView>)
    requires
        app.frame is Intro,
        !(app.wait is Listing),
        forall|i: int|
            0 <= i < events.len() ==> !(#[trigger] events[i] is Failed) && events[i]
                != EventView::Key(Some(Key::Escape)) && events[i] != EventView::Key(
                Some(Key::Char('f')),
            ),
    ensures
        app.run_all(events).frame is Intro,
        !(app.run_all(events).wait is Listing),
    decreases events.len(),
{
    if events.len() > 0 {
        lemma_intro_stays_up(app, events.drop_last());
    }
}

/// `f` on the intro asks for the listing of the working directory. The
/// listing that comes back is the frame, entry for entry and in its order,
/// with the cursor on the first; it is drawn at once.
pub proof fn lemma_f_lists_working_directory(app: AppView, entries: Seq<EntryView>)
    requires
        app.frame is Intro,
        app.wait is Key,
    ensures
        ({
            let (asked, first) = app.run(EventView::Key(Some(Key::Char('f'))));
            let (listed, second) = asked.run(EventView::Listed(entries));
            let dir = DirView { entries, cursor: 0 };
            &&& first == ActionView { out: Seq::empty(), next: NextView::List("."@) }
            &&& listed.frame == FrameView::Dir(dir)
            &&& second == ActionView {
                out: app.tick().1 + dir.picture(app.highlight),
                next: NextView::Poll,
            }
        }),
{
}

/// Escape on the intro ends the session: behind what the countdown puts
/// first, the terminal is restored, and the loop is left without an error.
pub proof fn lemma_escape_ends(app: AppView)
    requires
        app.frame is Intro,
        app.wait is Key,
    ensures
        app.closes(EventView::Key(Some(Key::Escape))),
        app.run(EventView::Key(Some(Key::Escape))).1 == (ActionView {
            out: app.tick().1 + deinit_text(),
            next: NextView::Exit(Ok(())),
        }),
{
}

/// A running session tells the driver to leave exactly when the event
/// closes it. What it writes then ends with what restores the terminal: a
/// failure is answered with that alone and handed on; a key that ends the
/// session, with what the countdown puts first and then that.
pub proof fn lemma_exit_restores(app: AppView, event: EventView)
    requires
        !app.done(),
    ensures
        app.run(event).1.next is Exit <==> app.closes(event),
        app.closes(event) ==> app.run(event).1 == (match event {
            EventView::Failed(e) => ActionView {
                out: deinit_text(),
                next: NextView::Exit(Err(e)),
            },
            _ => ActionView {
                out: app.tick().1 + deinit_text(),
                next: NextView::Exit(Ok(())),
            },
        }),
{
    if event is Failed {
        assert(app.run(event).1.out =~= deinit_text());
    }
}

/// A session that is over stays as it is, writes nothing and tells the
/// driver to leave.
pub proof fn lemma_done_is_silent(app: AppView, event: EventView)
    requires
        app.done(),
    ensures
        app.run(event).0 == app,
        app.run(event).1.out == Seq::<char>::empty(),
        app.run(event).1.next is Exit,
        !app.closes(event),
{
}

/// Whatever the events, a session is closed at most once: exactly once if
/// it ran before them and is over after them, and never otherwise. So the
/// terminal is restored once on every way out, and on no other occasion.
pub proof fn lemma_closes_once(app: AppView, events: Seq<EventView>)
    ensures
        app.closings(events) == (if !app.done() && app.run_all(events).done() {
            1nat
        } else {
            0nat
        }),
        app.done() ==> app.run_all(events) == app,
    decreases events.len(),
{
    if events.len() > 0 {
        lemma_closes_once(app, events.drop_last());
        let before = app.run_all(events.drop_last());
        if before.done() {
            lemma_done_is_silent(before, events.last());
        }
    }
}

} // verus!
