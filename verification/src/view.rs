//! The view projector: from a session to a description of the three stacked
//! panes that the renderer draws. Nothing here changes a session, with the one
//! exception of `render_home`, which also runs the countdown.

use crate::screen::MenuItem;
use crate::session::{SessionState, SessionView, RACE_SECONDS};
use itertools::Itertools;
use std::collections::VecDeque;
use vstd::prelude::*;
use vstd::string::StringExecFns;

verus! {

/// Words on one line of the word pane.
pub const WORDS_PER_LINE: usize = 10;

/// One line of text; an accented line is drawn in the highlight colour.
#[derive(Clone, Debug)]
pub struct Line {
    pub text: String,
    pub accent: bool,
}

/// The top pane, three rows high.
#[derive(Clone, Debug)]
pub enum TopPane {
    /// The menu strip with its titles.
    Menu(Vec<String>),
    /// The echo of what was typed.
    Input(String),
    /// The banner that ends a race.
    Banner(String),
}

/// The middle pane, which takes the room that is left.
#[derive(Clone, Debug)]
pub enum MiddlePane {
    /// The centred welcome text, line by line.
    Welcome(Vec<Line>),
    /// The word queue, line by line, each word with the space that follows it.
    Words(Vec<Vec<String>>),
    /// Nothing.
    Empty,
}

/// The bottom pane, three rows high.
#[derive(Clone, Debug)]
pub enum BottomPane {
    /// A horizontal gauge with its title, filled to `percent` of its width.
    Gauge { title: String, percent: u16 },
    /// Nothing.
    Empty,
}

/// What the renderer is to draw.
#[derive(Clone, Debug)]
pub struct ViewModel {
    pub top: TopPane,
    pub middle: MiddlePane,
    pub bottom: BottomPane,
}

/// Model of a [`Line`].
pub struct LineView {
    pub text: Seq<char>,
    pub accent: bool,
}

/// Model of a [`TopPane`].
pub enum TopView {
    Menu(Seq<Seq<char>>),
    Input(Seq<char>),
    Banner(Seq<char>),
}

/// Model of a [`MiddlePane`].
pub enum MiddleView {
    Welcome(Seq<LineView>),
    Words(Seq<Seq<Seq<char>>>),
    Empty,
}

/// Model of a [`BottomPane`].
pub enum BottomView {
    Gauge { title: Seq<char>, percent: nat },
    Empty,
}

/// Model of a [`ViewModel`].
pub struct FrameView {
    pub top: TopView,
    pub middle: MiddleView,
    pub bottom: BottomView,
}

impl DeepView for Line {
    type V = LineView;

    open spec fn deep_view(&self) -> LineView {
        LineView { text: self.text@, accent: self.accent }
    }
}

impl View for TopPane {
    type V = TopView;

    open spec fn view(&self) -> TopView {
        match *self {
            TopPane::Menu(titles) => TopView::Menu(titles.deep_view()),
            TopPane::Input(text) => TopView::Input(text@),
            TopPane::Banner(text) => TopView::Banner(text@),
        }
    }
}

impl View for MiddlePane {
    type V = MiddleView;

    open spec fn view(&self) -> MiddleView {
        match *self {
            MiddlePane::Welcome(lines) => MiddleView::Welcome(lines.deep_view()),
            MiddlePane::Words(lines) => MiddleView::Words(lines.deep_view()),
            MiddlePane::Empty => MiddleView::Empty,
        }
    }
}

impl View for BottomPane {
    type V = BottomView;

    open spec fn view(&self) -> BottomView {
        match *self {
            BottomPane::Gauge { title, percent } => BottomView::Gauge {
                title: title@,
                percent: percent as nat,
            },
            BottomPane::Empty => BottomView::Empty,
        }
    }
}

impl View for ViewModel {
    type V = FrameView;

    open spec fn view(&self) -> FrameView {
        FrameView { top: self.top@, middle: self.middle@, bottom: self.bottom@ }
    }
}

/// The character of a decimal digit.
pub open spec fn digit(d: nat) -> char {
    if d == 0 {
        '0'
    } else if d == 1 {
        '1'
    } else if d == 2 {
        '2'
    } else if d == 3 {
        '3'
    } else if d == 4 {
        '4'
    } else if d == 5 {
        '5'
    } else if d == 6 {
        '6'
    } else if d == 7 {
        '7'
    } else if d == 8 {
        '8'
    } else {
        '9'
    }
}

/// A number in decimal notation, without leading zeros.
pub open spec fn decimal(n: nat) -> Seq<char>
    decreases n,
{
    if n < 10 {
        seq![digit(n)]
    } else {
        decimal(n / 10).push(digit(n % 10))
    }
}

/// A line in the plain colour.
pub open spec fn plain(text: Seq<char>) -> LineView {
    LineView { text, accent: false }
}

/// The titles of the menu strip.
pub open spec fn menu() -> Seq<Seq<char>> {
    seq!["Start"@, "Quit"@]
}

/// The welcome text. While a race is pending, its last line announces the
/// seconds that are left before it begins.
pub open spec fn welcome(started: bool, countdown: nat) -> Seq<LineView> {
    let greeting = seq![
        plain(""@),
        plain("Welcome"@),
        plain(""@),
        plain("to"@),
        plain(""@),
        LineView { text: "Typing Game"@, accent: true },
        plain(""@),
    ];
    if started && countdown > 0 {
        greeting.push(plain("Starting race in "@ + decimal(countdown)))
    } else {
        greeting
    }
}

/// The countdown after the Home screen was drawn: a pending one has lost a
/// second.
pub open spec fn ticked(started: bool, countdown: nat) -> nat {
    if started && countdown > 0 {
        (countdown - 1) as nat
    } else {
        countdown
    }
}

/// The banner of the GameOver screen.
pub open spec fn banner(score: nat) -> Seq<char> {
    "Game Over | Press 'r' to restart race | Score: "@ + decimal(score)
}

/// Each word with a space behind it.
pub open spec fn spaced(words: Seq<Seq<char>>) -> Seq<Seq<char>> {
    Seq::new(words.len(), |i: int| words[i].push(' '))
}

/// The items in runs of `size`, in order; only the last run may be shorter.
pub open spec fn chunked(items: Seq<Seq<char>>, size: int) -> Seq<Seq<Seq<char>>> {
    Seq::new(
        ((items.len() + size - 1) / size) as nat,
        |k: int|
            items.subrange(
                k * size,
                if (k + 1) * size <= items.len() {
                    (k + 1) * size
                } else {
                    items.len() as int
                },
            ),
    )
}

/// How full the gauge is after `elapsed` whole seconds of a race: a hundred
/// less the whole percents of the race that have passed, and never below zero.
pub open spec fn percent_left(elapsed: nat) -> nat {
    let left = 100 - (100 * elapsed) as int / (RACE_SECONDS as int);
    if left > 0 {
        left as nat
    } else {
        0
    }
}

/// Whole seconds of the race that are left after `elapsed` of them.
pub open spec fn seconds_left(elapsed: nat) -> nat {
    if elapsed <= RACE_SECONDS {
        (RACE_SECONDS - elapsed) as nat
    } else {
        0
    }
}

/// The title of the gauge.
pub open spec fn gauge_title(elapsed: nat) -> Seq<char> {
    "Time Remaining: "@ + decimal(seconds_left(elapsed))
}

/// The frame that shows session `s` at clock reading `now`.
pub open spec fn frame_of(s: SessionView, now: nat) -> FrameView {
    match s.screen {
        MenuItem::Home => FrameView {
            top: TopView::Menu(menu()),
            middle: MiddleView::Welcome(welcome(s.started, s.countdown)),
            bottom: BottomView::Empty,
        },
        MenuItem::Game => FrameView {
            top: TopView::Input(s.input),
            middle: MiddleView::Words(chunked(spaced(s.words), WORDS_PER_LINE as int)),
            bottom: BottomView::Gauge {
                title: gauge_title(s.elapsed_secs(now)),
                percent: percent_left(s.elapsed_secs(now)),
            },
        },
        MenuItem::GameOver => FrameView {
            top: TopView::Banner(banner(s.score)),
            middle: MiddleView::Empty,
            bottom: BottomView::Empty,
        },
    }
}

/// The frame that a render pass at `now` draws of session `s`, with `fresh` as
/// the words that the supplier delivered for it. The Home and GameOver screens
/// are drawn as the pass finds them; the Game screen is drawn after a
/// completed word was counted and before the clock is looked at.
pub open spec fn frame_drawn(s: SessionView, now: nat, fresh: Seq<Seq<char>>) -> FrameView {
    match s.screen {
        MenuItem::Game => frame_of(s.word_checked(fresh), now),
        _ => frame_of(s, now),
    }
}

/// Trusted: `Itertools::chunks` hands the items out in runs of `size`, in
/// their order, the last run shorter where the items do not fill it, and no
/// run at all for no items. It panics on a `size` of zero.
#[verifier::external_body]
fn chunks_of(items: Vec<String>, size: usize) -> (runs: Vec<Vec<String>>)
    requires
        size > 0,
    ensures
        runs.deep_view() == chunked(items.deep_view(), size as int),
{
    items.into_iter().chunks(size).into_iter().map(|run| run.collect()).collect()
}

fn digit_char(d: usize) -> (c: char)
    requires
        d < 10,
    ensures
        c == digit(d as nat),
{
    if d == 0 {
        '0'
    } else if d == 1 {
        '1'
    } else if d == 2 {
        '2'
    } else if d == 3 {
        '3'
    } else if d == 4 {
        '4'
    } else if d == 5 {
        '5'
    } else if d == 6 {
        '6'
    } else if d == 7 {
        '7'
    } else if d == 8 {
        '8'
    } else {
        '9'
    }
}

/// `n` in decimal notation.
pub fn decimal_text(n: usize) -> (text: String)
    ensures
        text@ == decimal(n as nat),
    decreases n,
{
    if n < 10 {
        let mut text = String::new();
        text.push(digit_char(n));
        assert(text@ =~= seq![digit(n as nat)]);
        text
    } else {
        let mut text = decimal_text(n / 10);
        text.push(digit_char(n % 10));
        text
    }
}

/// `head` followed by `n` in decimal notation.
pub fn numbered(head: &str, n: usize) -> (text: String)
    ensures
        text@ == head@ + decimal(n as nat),
{
    let mut text = String::from_str(head);
    let number = decimal_text(n);
    text.append(number.as_str());
    text
}

fn plain_line(text: &str) -> (line: Line)
    ensures
        line.deep_view() == plain(text@),
{
    Line { text: String::from_str(text), accent: false }
}

/// The titles of the menu strip.
pub fn menu_titles() -> (titles: Vec<String>)
    ensures
        titles.deep_view() == menu(),
{
    let mut titles: Vec<String> = Vec::new();
    titles.push(String::from_str("Start"));
    titles.push(String::from_str("Quit"));
    assert(titles.deep_view() =~= menu());
    titles
}

/// The welcome text for the Home screen, as `render_home` draws it, without
/// touching the countdown.
pub fn welcome_lines(start: bool, countdown: usize) -> (lines: Vec<Line>)
    ensures
        lines.deep_view() == welcome(start, countdown as nat),
{
    let mut lines: Vec<Line> = Vec::new();
    lines.push(plain_line(""));
    lines.push(plain_line("Welcome"));
    lines.push(plain_line(""));
    lines.push(plain_line("to"));
    lines.push(plain_line(""));
    lines.push(Line { text: String::from_str("Typing Game"), accent: true });
    lines.push(plain_line(""));
    if start && countdown > 0 {
        let text = numbered("Starting race in ", countdown);
        lines.push(Line { text, accent: false });
    }
    assert(lines.deep_view() =~= welcome(start, countdown as nat));
    lines
}

/// Draws the middle pane of the Home screen and runs the countdown: the text
/// announces the seconds that were left on entry, and a pending countdown
/// leaves with one second less. The pause of one second that goes with each
/// count is the caller's to make, before the call.
pub fn render_home(start: bool, countdown: &mut usize) -> (lines: Vec<Line>)
    ensures
        lines.deep_view() == welcome(start, *old(countdown) as nat),
        *final(countdown) == ticked(start, *old(countdown) as nat),
{
    let lines = welcome_lines(start, *countdown);
    if start && *countdown > 0 {
        *countdown = *countdown - 1;
    }
    lines
}

/// How full the gauge is after `elapsed` whole seconds of a race.
pub fn gauge_percent(elapsed: u128) -> (percent: u16)
    ensures
        percent == percent_left(elapsed as nat),
        percent <= 100,
{
    if elapsed >= RACE_SECONDS {
        0
    } else {
        let passed: u128 = (100 * elapsed) / RACE_SECONDS;
        (100 - passed) as u16
    }
}

/// Whole seconds of the race that are left after `elapsed` of them.
pub fn gauge_seconds(elapsed: u128) -> (left: usize)
    ensures
        left == seconds_left(elapsed as nat),
{
    if elapsed <= RACE_SECONDS {
        (RACE_SECONDS - elapsed) as usize
    } else {
        0
    }
}

/// The word queue as the word pane shows it: every word with a space behind
/// it, ten to a line.
pub fn word_lines(words: &VecDeque<String>) -> (lines: Vec<Vec<String>>)
    ensures
        lines.deep_view() == chunked(spaced(words.deep_view()), WORDS_PER_LINE as int),
{
    let mut spans: Vec<String> = Vec::new();
    let mut i: usize = 0;
    while i < words.len()
        invariant
            i <= words.len(),
            spans.len() == i,
            forall|k: int| 0 <= k < i ==> (#[trigger] spans[k])@ == words@[k]@.push(' '),
        decreases words.len() - i,
    {
        let mut span = words[i].clone();
        span.push(' ');
        spans.push(span);
        i = i + 1;
    }
    assert(spans.deep_view() =~= spaced(words.deep_view()));
    chunks_of(spans, WORDS_PER_LINE)
}

/// The frame that shows `session` at clock reading `now`.
pub fn project(session: &SessionState, now: u128) -> (frame: ViewModel)
    ensures
        frame@ == frame_of(session@, now as nat),
{
    match session.screen {
        MenuItem::Home => ViewModel {
            top: TopPane::Menu(menu_titles()),
            middle: MiddlePane::Welcome(welcome_lines(session.started, session.countdown)),
            bottom: BottomPane::Empty,
        },
        MenuItem::Game => {
            let elapsed = session.elapsed_secs(now);
            ViewModel {
                top: TopPane::Input(session.input.clone()),
                middle: MiddlePane::Words(word_lines(&session.words)),
                bottom: BottomPane::Gauge {
                    title: numbered("Time Remaining: ", gauge_seconds(elapsed)),
                    percent: gauge_percent(elapsed),
                },
            }
        },
        MenuItem::GameOver => ViewModel {
            top: TopPane::Banner(
                numbered("Game Over | Press 'r' to restart race | Score: ", session.score),
            ),
            middle: MiddlePane::Empty,
            bottom: BottomPane::Empty,
        },
    }
}

} // verus!
