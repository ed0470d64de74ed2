//! The session that a driver runs: it is handed events and answers with
//! actions.
//!
//! The session never reads or writes. It says what to write and what it
//! needs next; whoever drives it does that and comes back with the answer.

use vstd::prelude::*;
use vstd::string::*;
use crate::dir::{Dir, Entry, entries_view};
use crate::error::Error;
use crate::frame::Frame;
use crate::intro::MIN_WIDTH;
use crate::key::Key;
use crate::session::{
    ActionView, AppView, EventView, NextView, WaitView, PERIOD, deinit_text, init_text,
};
use crate::term::{
    clear_all, cursor_goto, cursor_hide, cursor_show, fg_light_green, is_highlight,
};

verus! {

/// What the driver reports back.
#[derive(Debug)]
pub enum Event {
    /// The poll is done: a key was pending, or none was.
    Key(Option<Key>),
    /// The directory that was asked for holds these entries, in this order.
    Listed(Vec<Entry>),
    /// The terminal has this many columns and this many rows.
    Size(u16, u16),
    /// The terminal or the file system failed.
    Failed(Error),
}

impl View for Event {
    type V = EventView;

    open spec fn view(&self) -> EventView {
        match self {
            Event::Key(key) => EventView::Key(*key),
            Event::Listed(entries) => EventView::Listed(entries_view(entries@)),
            Event::Size(w, h) => EventView::Size(*w, *h),
            Event::Failed(e) => EventView::Failed(*e),
        }
    }
}

/// What the driver is to do once it has written an action's text.
#[derive(Debug)]
pub enum Next {
    /// Poll the keyboard, without waiting, and report [`Event::Key`].
    Poll,
    /// List the directory at this path and report [`Event::Listed`].
    List(String),
    /// Ask the terminal for its size and report [`Event::Size`].
    Size,
    /// Leave the loop with this result.
    Exit(Result<(), Error>),
}

impl View for Next {
    type V = NextView;

    open spec fn view(&self) -> NextView {
        match self {
            Next::Poll => NextView::Poll,
            Next::List(path) => NextView::List(path@),
            Next::Size => NextView::Size,
            Next::Exit(result) => NextView::Exit(*result),
        }
    }
}

/// One answer of the session: text for the terminal, then a request.
#[derive(Debug)]
pub struct Action {
    /// What to write and flush before anything else is done.
    pub out: String,
    pub next: Next,
}

impl View for Action {
    type V = ActionView;

    open spec fn view(&self) -> ActionView {
        ActionView { out: self.out@, next: self.next@ }
    }
}

/// What the session is waiting for.
#[derive(Debug)]
enum Wait {
    Key,
    Listing(String),
    Size,
}

impl View for Wait {
    type V = WaitView;

    closed spec fn view(&self) -> WaitView {
        match self {
            Wait::Key => WaitView::Key,
            Wait::Listing(path) => WaitView::Listing(path@),
            Wait::Size => WaitView::Size,
        }
    }
}

/// A session: the frame on the screen, the countdown to the next clearing
/// of the screen, what the session is waiting for, and what it puts in
/// front of a selected line.
#[derive(Debug)]
pub struct App {
    frame: Frame,
    timer: u16,
    wait: Wait,
    highlight: String,
}

impl View for App {
    type V = AppView;

    closed spec fn view(&self) -> AppView {
        AppView {
            frame: self.frame@,
            timer: self.timer as nat,
            wait: self.wait@,
            highlight: self.highlight@,
        }
    }
}

impl App {
    #[verifier::type_invariant]
    spec fn inv(self) -> bool {
        1 <= self.timer <= PERIOD
    }

    /// A session that has just begun: the intro is up, the first frame
    /// drawn will clear the screen, and the first poll is due. Whether
    /// selected lines are coloured is settled here, once for the session.
    pub fn new() -> (app: App)
        ensures
            is_highlight(app@.highlight),
            app@ == AppView::fresh(app@.highlight),
    {
        App { frame: Frame::begin(), timer: 1, wait: Wait::Key, highlight: fg_light_green() }
    }

    /// Begins a session: the session, and its first answer, which prepares
    /// the terminal and asks for the first poll.
    pub fn run_new() -> (r: (App, Action))
        ensures
            is_highlight(r.0@.highlight),
            r.0@ == AppView::fresh(r.0@.highlight),
            r.1@ == (ActionView { out: init_text(), next: NextView::Poll }),
    {
        let app = App::new();
        (app, Action { out: Self::init(), next: Next::Poll })
    }

    /// What prepares the terminal: see [`init_text`].
    pub fn init() -> (out: String)
        ensures
            out@ == init_text(),
    {
        let mut out = cursor_hide();
        let clear = clear_all();
        out.append(clear.as_str());
        out
    }

    /// What restores the terminal: see [`deinit_text`].
    pub fn deinit() -> (out: String)
        ensures
            out@ == deinit_text(),
    {
        let mut out = clear_all();
        let home = cursor_goto(1, 1);
        out.append(home.as_str());
        let show = cursor_show();
        out.append(show.as_str());
        out
    }

    /// Whether the session is over.
    pub fn is_end(&self) -> (b: bool)
        ensures
            b == self@.done(),
    {
        self.frame.is_end()
    }

    /// The frame that is up.
    pub fn frame(&self) -> (frame: &Frame)
        ensures
            frame@ == self@.frame,
    {
        &self.frame
    }

    /// Frames left to draw until the screen is cleared.
    pub fn timer(&self) -> (timer: u16)
        ensures
            timer == self@.timer,
            1 <= timer <= PERIOD,
    {
        proof {
            use_type_invariant(self);
        }
        self.timer
    }

    /// Whether [`App::run`] can take `event` now: see [`AppView::accepts`].
    pub fn accepts(&self, event: &Event) -> (b: bool)
        ensures
            b == self@.accepts(event@),
    {
        match event {
            Event::Size(w, _) => !(self.frame.is_intro() && matches!(self.wait, Wait::Size))
                || *w >= MIN_WIDTH,
            _ => true,
        }
    }

    /// Counts one frame down: see [`AppView::tick`].
    fn tick(&mut self) -> (text: String)
        ensures
            final(self)@ == (AppView { timer: old(self)@.tick().0, ..old(self)@ }),
            text@ == old(self)@.tick().1,
    {
        proof {
            use_type_invariant(&*self);
        }
        if self.timer == 1 {
            self.timer = PERIOD;
            clear_all()
        } else {
            self.timer = self.timer - 1;
            String::new()
        }
    }

    /// Asks again for what the session is waiting on: see
    /// [`AppView::again`].
    fn again(&self) -> (action: Action)
        ensures
            action@ == self@.again().1,
    {
        let next = match &self.wait {
            Wait::Key => Next::Poll,
            Wait::Listing(path) => Next::List(path.clone()),
            Wait::Size => Next::Size,
        };
        Action { out: String::new(), next }
    }

    /// Ends the session: see [`AppView::close`].
    fn close(&mut self, text: String, result: Result<(), Error>) -> (action: Action)
        ensures
            (final(self)@, action@) == old(self)@.close(text@, result),
    {
        proof {
            use_type_invariant(&*self);
        }
        self.frame = Frame::End;
        self.wait = Wait::Key;
        let mut out = text;
        let restore = Self::deinit();
        out.append(restore.as_str());
        Action { out, next: Next::Exit(result) }
    }

    /// Draws the frame that is up: see [`AppView::draw`].
    fn draw(&mut self, w: u16, h: u16) -> (action: Action)
        requires
            old(self)@.frame is Intro ==> w >= MIN_WIDTH,
        ensures
            (final(self)@, action@) == old(self)@.draw(w, h),
    {
        let mut out = self.tick();
        proof {
            use_type_invariant(&*self);
        }
        self.wait = Wait::Key;
        let picture = self.frame.draw(w, h, self.highlight.as_str());
        out.append(picture.as_str());
        Action { out, next: Next::Poll }
    }

    /// Carries the turn on behind the key: see [`AppView::proceed`].
    fn proceed(&mut self) -> (action: Action)
        ensures
            (final(self)@, action@) == old(self)@.proceed(),
    {
        if self.frame.is_end() {
            let text = self.tick();
            self.close(text, Ok(()))
        } else if self.frame.is_intro() {
            proof {
                use_type_invariant(&*self);
            }
            self.wait = Wait::Size;
            Action { out: String::new(), next: Next::Size }
        } else {
            self.draw(0, 0)
        }
    }

    /// Hands the polled key to the frame: see [`AppView::update`].
    fn update(&mut self, key: Option<Key>) -> (action: Action)
        ensures
            (final(self)@, action@) == old(self)@.update(key),
    {
        match key {
            None => self.proceed(),
            Some(key) => {
                proof {
                    use_type_invariant(&*self);
                }
                let mut frame = Frame::End;
                std::mem::swap(&mut self.frame, &mut frame);
                let (frame, open) = frame.manage_key(key);
                self.frame = frame;
                match open {
                    Some(path) => {
                        self.wait = Wait::Listing(path.clone());
                        Action { out: String::new(), next: Next::List(path) }
                    },
                    None => self.proceed(),
                }
            },
        }
    }

    /// Takes one event and answers it: see [`AppView::run`].
    ///
    /// Call it with the answer to the request of the action before, until
    /// that request is [`Next::Exit`].
    pub fn run(&mut self, event: Event) -> (action: Action)
        requires
            old(self)@.accepts(event@),
        ensures
            (final(self)@, action@) == old(self)@.run(event@),
    {
        proof {
            use_type_invariant(&*self);
        }
        if self.frame.is_end() {
            let result = match event {
                Event::Failed(e) => Err(e),
                _ => Ok(()),
            };
            return Action { out: String::new(), next: Next::Exit(result) };
        }
        match event {
            Event::Failed(e) => self.close(String::new(), Err(e)),
            Event::Key(key) => {
                if matches!(self.wait, Wait::Key) {
                    self.update(key)
                } else {
                    self.again()
                }
            },
            Event::Listed(entries) => {
                if matches!(self.wait, Wait::Listing(_)) {
                    self.frame = Frame::Dir(Dir::new(entries));
                    self.wait = Wait::Key;
                    self.proceed()
                } else {
                    self.again()
                }
            },
            Event::Size(w, h) => {
                if matches!(self.wait, Wait::Size) {
                    self.draw(w, h)
                } else {
                    self.again()
                }
            },
        }
    }
}

} // verus!
