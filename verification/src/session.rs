//! The session: its state, the mathematical model of that state, and the
//! controller that moves it from event to event and from render pass to
//! render pass.

use crate::event::{Action, Event, KeyCode, KeyEvent, CONTROL, NO_MODIFIERS};
use crate::screen::MenuItem;
use crate::text::{trim, trimmed};
use crate::view::{
    frame_drawn, menu_titles, project, render_home, ticked, BottomPane, FrameView, MiddlePane,
    TopPane, ViewModel,
};
use crate::words::{next_words, supplied};
use std::collections::VecDeque;
use vstd::prelude::*;

verus! {

/// Length of a race, in whole seconds.
pub const RACE_SECONDS: u128 = 60;

/// Value from which the countdown before a race runs down.
pub const COUNTDOWN_START: usize = 3;

/// Number of words that a fresh queue holds.
pub const QUEUE_LENGTH: usize = 100;

/// Clock units (nanoseconds) in a second.
pub const NANOS_PER_SECOND: u128 = 1_000_000_000;

/// The session as the controller keeps it. Clock readings are nanoseconds on a
/// monotonic clock whose origin the caller fixes.
#[derive(Clone, Debug)]
pub struct SessionState {
    /// The screen that is shown.
    pub screen: MenuItem,
    /// Whether the player has asked for a race since launch or the last time-out.
    pub started: bool,
    /// Seconds still to count before the race begins.
    pub countdown: usize,
    /// Clock reading at which the current race began.
    pub game_start: Option<u128>,
    /// What the player has typed for the current target word.
    pub input: String,
    /// The target words; the head is the one to type next.
    pub words: VecDeque<String>,
    /// Words completed in the current race.
    pub score: usize,
}

/// The mathematical model of a session.
pub struct SessionView {
    pub screen: MenuItem,
    pub started: bool,
    pub countdown: nat,
    pub game_start: Option<nat>,
    pub input: Seq<char>,
    pub words: Seq<Seq<char>>,
    pub score: nat,
}

impl View for SessionState {
    type V = SessionView;

    open spec fn view(&self) -> SessionView {
        SessionView {
            screen: self.screen,
            started: self.started,
            countdown: self.countdown as nat,
            game_start: match self.game_start {
                Some(at) => Some(at as nat),
                None => None,
            },
            input: self.input@,
            words: self.words.deep_view(),
            score: self.score as nat,
        }
    }
}

impl SessionView {
    /// The state in which a session begins: idle on the Home screen, with a
    /// full countdown, nothing typed and nothing scored.
    pub open spec fn initial(words: Seq<Seq<char>>) -> SessionView {
        SessionView {
            screen: MenuItem::Home,
            started: false,
            countdown: COUNTDOWN_START as nat,
            game_start: None,
            input: Seq::empty(),
            words,
            score: 0,
        }
    }

    /// What holds of a session at all times: the countdown is within range,
    /// there is a word to type, and a running race has been asked for and has
    /// a beginning.
    pub open spec fn wf(self) -> bool {
        &&& self.countdown <= COUNTDOWN_START
        &&& self.words.len() >= 1
        &&& self.screen == MenuItem::Game ==> self.started && self.game_start is Some
    }

    /// A race is pending: the Home screen is counting down to it.
    pub open spec fn counting(self) -> bool {
        self.screen == MenuItem::Home && self.started && self.countdown > 0
    }

    /// The typed text, trimmed, is the head of the queue.
    pub open spec fn matched(self) -> bool {
        self.words.len() >= 1 && trimmed(self.input) == self.words[0]
    }

    /// Whole seconds from the beginning of the race to `now`; zero where
    /// there is no race or `now` lies before its beginning.
    pub open spec fn elapsed_secs(self, now: nat) -> nat {
        match self.game_start {
            Some(at) => if now >= at {
                (now - at) as nat / (NANOS_PER_SECOND as nat)
            } else {
                0
            },
            None => 0,
        }
    }

    /// The race has used up its time at `now`.
    pub open spec fn timed_out(self, now: nat) -> bool {
        self.elapsed_secs(now) >= RACE_SECONDS
    }

    /// `event` makes an idle session end the program.
    pub open spec fn quits(self, event: Event<KeyEvent>) -> bool {
        &&& !self.started
        &&& event matches Event::Input(key)
        &&& key.code == KeyCode::Char('q')
    }

    /// `event` makes an idle session begin a race.
    pub open spec fn starts_race(self, event: Event<KeyEvent>) -> bool {
        &&& !self.started
        &&& event matches Event::Input(key)
        &&& (key.code == KeyCode::Char('s') || key.code == KeyCode::Char('r'))
    }

    /// The input line after a key press in a session whose race was asked for.
    pub open spec fn edited(self, key: KeyEvent) -> Seq<char> {
        if key.modifiers == NO_MODIFIERS {
            match key.code {
                KeyCode::Backspace => if self.input.len() > 0 {
                    self.input.drop_last()
                } else {
                    self.input
                },
                KeyCode::Char(c) => self.input.push(c),
                KeyCode::Other => self.input,
            }
        } else if key.modifiers == CONTROL && key.code == KeyCode::Char('a') {
            Seq::empty()
        } else {
            self.input
        }
    }

    /// The session after one event. Ticks change nothing. A key edits the
    /// input line once a race was asked for; before that, `s` and `r` ask for
    /// one, and every other key, `q` among them, leaves the state as it is.
    pub open spec fn on_event(self, event: Event<KeyEvent>) -> SessionView {
        match event {
            Event::Tick => self,
            Event::Input(key) => if self.started {
                SessionView { input: self.edited(key), ..self }
            } else if self.starts_race(event) {
                SessionView { started: true, countdown: COUNTDOWN_START as nat, score: 0, ..self }
            } else {
                self
            },
        }
    }

    /// How many fresh words the next render pass takes from the supplier.
    pub open spec fn words_wanted(self) -> nat {
        match self.screen {
            MenuItem::Home => 0,
            MenuItem::Game => if self.matched() {
                1
            } else {
                0
            },
            MenuItem::GameOver => if self.started {
                QUEUE_LENGTH as nat
            } else {
                0
            },
        }
    }

    /// Home screen, after the countdown was run: a countdown that has run out
    /// while a race was asked for begins the race at `now`, with an empty
    /// input line.
    pub open spec fn begun(self, now: nat) -> SessionView {
        if self.started && self.countdown == 0 {
            SessionView {
                screen: MenuItem::Game,
                game_start: Some(now),
                input: Seq::empty(),
                ..self
            }
        } else {
            self
        }
    }

    /// Home screen: a pending countdown loses one second, and the race begins
    /// once none is left.
    pub open spec fn counted_down(self, now: nat) -> SessionView {
        SessionView { countdown: ticked(self.started, self.countdown), ..self }.begun(now)
    }

    /// Game screen, first half: a completed word leaves the queue, `fresh`
    /// joins its tail, the input line is cleared and the score grows by one.
    pub open spec fn word_checked(self, fresh: Seq<Seq<char>>) -> SessionView {
        if self.matched() {
            SessionView {
                words: self.words.drop_first() + fresh,
                input: Seq::empty(),
                score: self.score + 1,
                ..self
            }
        } else {
            self
        }
    }

    /// Game screen, second half: a race that has used up its time is over.
    pub open spec fn clock_checked(self, now: nat) -> SessionView {
        if self.timed_out(now) {
            SessionView { screen: MenuItem::GameOver, started: false, ..self }
        } else {
            self
        }
    }

    /// GameOver screen: once a new race was asked for, the session goes back
    /// to Home with `fresh` as its queue and an empty input line.
    pub open spec fn restarted(self, fresh: Seq<Seq<char>>) -> SessionView {
        if self.started {
            SessionView { screen: MenuItem::Home, words: fresh, input: Seq::empty(), ..self }
        } else {
            self
        }
    }

    /// The session after one render pass at clock reading `now`, with `fresh`
    /// as the words that the supplier delivered for it.
    pub open spec fn on_render(self, now: nat, fresh: Seq<Seq<char>>) -> SessionView {
        match self.screen {
            MenuItem::Home => self.counted_down(now),
            MenuItem::Game => self.word_checked(fresh).clock_checked(now),
            MenuItem::GameOver => self.restarted(fresh),
        }
    }
}

impl SessionState {
    /// A session at its beginning, with `words` as its queue.
    pub fn new(words: VecDeque<String>) -> (session: SessionState)
        requires
            words@.len() >= 1,
        ensures
            session@ == SessionView::initial(words.deep_view()),
            session@.wf(),
    {
        SessionState {
            screen: MenuItem::Home,
            started: false,
            countdown: COUNTDOWN_START,
            game_start: None,
            input: String::new(),
            words,
            score: 0,
        }
    }

    /// A session at its beginning, with a full queue of words drawn from the
    /// dictionary. Which words they are is open.
    pub fn launch() -> (session: SessionState)
        ensures
            launched(session@),
            session@.wf(),
    {
        let words = next_words(QUEUE_LENGTH);
        SessionState::new(words)
    }

    /// Whether the next render pass counts a second of a pending countdown,
    /// so that the caller is to pause for that second before it.
    pub fn pause_due(&self) -> (due: bool)
        ensures
            due == self@.counting(),
    {
        match self.screen {
            MenuItem::Home => self.started && self.countdown > 0,
            _ => false,
        }
    }

    /// Whether the session meets its invariant.
    pub fn is_valid(&self) -> (valid: bool)
        ensures
            valid == self@.wf(),
    {
        let race_ok = match self.screen {
            MenuItem::Game => self.started && self.game_start.is_some(),
            _ => true,
        };
        self.countdown <= COUNTDOWN_START && self.words.len() >= 1 && race_ok
    }

    /// Whether the typed text, trimmed, is the head of the queue.
    pub fn matched(&self) -> (hit: bool)
        ensures
            hit == self@.matched(),
    {
        if self.words.len() == 0 {
            return false;
        }
        let typed = trim(self.input.as_str()).to_owned();
        typed == self.words[0]
    }

    /// Whole seconds from the beginning of the race to `now`.
    pub fn elapsed_secs(&self, now: u128) -> (secs: u128)
        ensures
            secs == self@.elapsed_secs(now as nat),
    {
        match self.game_start {
            Some(at) => if now >= at {
                (now - at) / NANOS_PER_SECOND
            } else {
                0
            },
            None => 0,
        }
    }

    /// How many fresh words the next render pass takes from the supplier.
    pub fn words_wanted(&self) -> (count: usize)
        ensures
            count == self@.words_wanted(),
    {
        match self.screen {
            MenuItem::Home => 0,
            MenuItem::Game => if self.matched() {
                1
            } else {
                0
            },
            MenuItem::GameOver => if self.started {
                QUEUE_LENGTH
            } else {
                0
            },
        }
    }

    /// Takes one event in. The state afterwards is `on_event` of the state
    /// before, and the answer is `Quit` exactly for `q` in an idle session.
    pub fn handle_event(&mut self, event: Event<KeyEvent>) -> (action: Action)
        ensures
            final(self)@ == old(self)@.on_event(event),
            action == Action::Quit <==> old(self)@.quits(event),
            old(self)@.wf() ==> final(self)@.wf(),
    {
        match event {
            Event::Tick => Action::Continue,
            Event::Input(key) => {
                if self.started {
                    if key.modifiers == NO_MODIFIERS {
                        match key.code {
                            KeyCode::Backspace => {
                                self.input.pop();
                            },
                            KeyCode::Char(c) => {
                                self.input.push(c);
                            },
                            KeyCode::Other => {},
                        }
                    } else if key.modifiers == CONTROL {
                        match key.code {
                            KeyCode::Char(c) => {
                                if c == 'a' {
                                    self.input = String::new();
                                }
                            },
                            _ => {},
                        }
                    }
                    Action::Continue
                } else {
                    match key.code {
                        KeyCode::Char(c) => {
                            if c == 'q' {
                                Action::Quit
                            } else if c == 's' || c == 'r' {
                                self.started = true;
                                self.countdown = COUNTDOWN_START;
                                self.score = 0;
                                Action::Continue
                            } else {
                                Action::Continue
                            }
                        },
                        _ => Action::Continue,
                    }
                }
            },
        }
    }

    /// Home screen, last step of a render pass: begins the race once the
    /// countdown has run out.
    pub fn begin_race(&mut self, now: u128)
        ensures
            final(self)@ == old(self)@.begun(now as nat),
    {
        if self.started && self.countdown == 0 {
            self.screen = MenuItem::Game;
            self.game_start = Some(now);
            self.input = String::new();
        }
    }

    /// Game screen, first step of a render pass: counts a completed word and
    /// moves the queue on. `fresh` is emptied into the queue on a match and
    /// left alone otherwise.
    pub fn check_word(&mut self, fresh: &mut VecDeque<String>)
        requires
            old(self)@.matched() ==> old(self).score < usize::MAX,
        ensures
            final(self)@ == old(self)@.word_checked(old(fresh).deep_view()),
            old(self)@.matched() ==> final(fresh)@.len() == 0,
            !old(self)@.matched() ==> *final(fresh) == *old(fresh),
    {
        if self.matched() {
            let ghost before = self.words.deep_view();
            let ghost added = fresh.deep_view();
            self.words.pop_front();
            self.words.append(fresh);
            self.input = String::new();
            self.score = self.score + 1;
            assert(self.words.deep_view() =~= before.drop_first() + added);
        }
    }

    /// Game screen, second step of a render pass: ends a race whose time is up.
    pub fn check_clock(&mut self, now: u128)
        ensures
            final(self)@ == old(self)@.clock_checked(now as nat),
    {
        if self.elapsed_secs(now) >= RACE_SECONDS {
            self.screen = MenuItem::GameOver;
            self.started = false;
        }
    }

    /// GameOver screen step of a render pass: once a race was asked for, back
    /// to Home with `fresh` as the queue. `fresh` is emptied into the session
    /// on a restart and left alone otherwise.
    pub fn restart(&mut self, fresh: &mut VecDeque<String>)
        ensures
            final(self)@ == old(self)@.restarted(old(fresh).deep_view()),
            old(self).started ==> final(fresh)@.len() == 0,
            !old(self).started ==> *final(fresh) == *old(fresh),
    {
        if self.started {
            let ghost added = fresh.deep_view();
            self.screen = MenuItem::Home;
            self.words.clear();
            self.words.append(fresh);
            self.input = String::new();
            assert(self.words.deep_view() =~= added);
        }
    }

    /// One render pass at clock reading `now`, with `fresh` as the words that
    /// the supplier delivered for it: the state moves on as `on_render` says,
    /// and the frame to draw comes back. The pause of one second that goes
    /// with each count of a pending countdown is the caller's to make, before
    /// it reads the clock.
    pub fn render_with(&mut self, now: u128, fresh: VecDeque<String>) -> (frame: ViewModel)
        requires
            old(self).score < usize::MAX,
        ensures
            final(self)@ == old(self)@.on_render(now as nat, fresh.deep_view()),
            frame@ == frame_drawn(old(self)@, now as nat, fresh.deep_view()),
            old(self)@.wf() && fresh.deep_view().len() == old(self)@.words_wanted()
                ==> final(self)@.wf(),
    {
        let mut fresh = fresh;
        match self.screen {
            MenuItem::Home => {
                let lines = render_home(self.started, &mut self.countdown);
                self.begin_race(now);
                ViewModel {
                    top: TopPane::Menu(menu_titles()),
                    middle: MiddlePane::Welcome(lines),
                    bottom: BottomPane::Empty,
                }
            },
            MenuItem::Game => {
                self.check_word(&mut fresh);
                let frame = project(self, now);
                self.check_clock(now);
                frame
            },
            MenuItem::GameOver => {
                let frame = project(self, now);
                self.restart(&mut fresh);
                frame
            },
        }
    }

    /// One render pass at clock reading `now`, with words drawn from the
    /// dictionary where the pass takes any. Which words they are is open; the
    /// rest is as in `render_with`.
    pub fn render(&mut self, now: u128) -> (frame: ViewModel)
        requires
            old(self).score < usize::MAX,
        ensures
            rendered(old(self)@, now as nat, final(self)@, frame@),
            old(self)@.wf() ==> final(self)@.wf(),
    {
        let fresh = next_words(self.words_wanted());
        let ghost drawn = fresh.deep_view();
        let frame = self.render_with(now, fresh);
        assert(supplied(drawn, old(self)@.words_wanted()));
        frame
    }
}

/// `s` is a session at its beginning with some full queue that the supplier
/// may have delivered.
pub open spec fn launched(s: SessionView) -> bool {
    exists|words: Seq<Seq<char>>|
        #![trigger SessionView::initial(words)]
        supplied(words, QUEUE_LENGTH as nat) && s == SessionView::initial(words)
}

/// `after` and `frame` are what one render pass at `now` makes of `before`,
/// for some words that the supplier may have delivered.
pub open spec fn rendered(before: SessionView, now: nat, after: SessionView, frame: FrameView) -> bool {
    exists|fresh: Seq<Seq<char>>|
        #![trigger before.on_render(now, fresh)]
        supplied(fresh, before.words_wanted()) && after == before.on_render(now, fresh) && frame
            == frame_drawn(before, now, fresh)
}

} // verus!
