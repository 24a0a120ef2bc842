use std::collections::VecDeque;
use typing_race::event::{Action, Event, KeyCode, KeyEvent, CONTROL, NO_MODIFIERS};
use typing_race::screen::MenuItem;
use typing_race::session::{SessionState, COUNTDOWN_START, QUEUE_LENGTH};
use typing_race::view::{BottomPane, MiddlePane, TopPane};

const SECOND: u128 = 1_000_000_000;

fn queue(words: &[&str]) -> VecDeque<String> {
    words.iter().map(|w| w.to_string()).collect()
}

fn key(c: char) -> Event<KeyEvent> {
    Event::Input(KeyEvent { code: KeyCode::Char(c), modifiers: NO_MODIFIERS })
}

fn backspace() -> Event<KeyEvent> {
    Event::Input(KeyEvent { code: KeyCode::Backspace, modifiers: NO_MODIFIERS })
}

fn control(c: char) -> Event<KeyEvent> {
    Event::Input(KeyEvent { code: KeyCode::Char(c), modifiers: CONTROL })
}

fn in_game(words: &[&str], input: &str, score: usize, game_start: u128) -> SessionState {
    SessionState {
        screen: MenuItem::Game,
        started: true,
        countdown: 0,
        game_start: Some(game_start),
        input: input.to_string(),
        words: queue(words),
        score,
    }
}

fn game_over(score: usize) -> SessionState {
    SessionState {
        screen: MenuItem::GameOver,
        started: false,
        countdown: 0,
        game_start: Some(0),
        input: String::new(),
        words: queue(&["left", "over"]),
        score,
    }
}

fn words_of(session: &SessionState) -> Vec<String> {
    session.words.iter().cloned().collect()
}

#[test]
fn new_session_is_idle_on_home() {
    let session = SessionState::new(queue(&["cat", "dog"]));
    assert_eq!(session.screen, MenuItem::Home);
    assert!(!session.started);
    assert_eq!(session.countdown, 3);
    assert_eq!(session.game_start, None);
    assert_eq!(session.input, "");
    assert_eq!(words_of(&session), vec!["cat", "dog"]);
    assert_eq!(session.score, 0);
    assert!(session.is_valid());
}

#[test]
fn quit_from_idle() {
    let mut session = SessionState::new(queue(&["cat", "dog"]));
    let action = session.handle_event(key('q'));
    assert_eq!(action, Action::Quit);
    assert_eq!(session.screen, MenuItem::Home);
    assert!(!session.started);
    assert_eq!(session.countdown, 3);
    assert_eq!(session.score, 0);
    assert_eq!(words_of(&session), vec!["cat", "dog"]);
}

#[test]
fn quit_from_game_over() {
    let mut session = game_over(7);
    assert_eq!(session.handle_event(key('q')), Action::Quit);
    assert_eq!(session.screen, MenuItem::GameOver);
    assert_eq!(session.score, 7);
}

#[test]
fn q_during_a_race_is_typed() {
    let mut session = in_game(&["quit", "dog"], "", 0, 0);
    assert_eq!(session.handle_event(key('q')), Action::Continue);
    assert_eq!(session.input, "q");
}

#[test]
fn start_keys_ask_for_a_race() {
    for c in ['s', 'r'] {
        let mut session = SessionState::new(queue(&["cat"]));
        session.countdown = 1;
        session.score = 9;
        assert_eq!(session.handle_event(key(c)), Action::Continue);
        assert!(session.started);
        assert_eq!(session.countdown, COUNTDOWN_START);
        assert_eq!(session.score, 0);
        assert_eq!(session.screen, MenuItem::Home);
        assert_eq!(session.input, "");
    }
}

#[test]
fn start_keys_count_whatever_the_modifiers() {
    let mut session = SessionState::new(queue(&["cat"]));
    assert_eq!(session.handle_event(control('s')), Action::Continue);
    assert!(session.started);
    let mut other = SessionState::new(queue(&["cat"]));
    assert_eq!(other.handle_event(control('q')), Action::Quit);
}

#[test]
fn idle_session_ignores_other_keys_and_ticks() {
    let mut session = SessionState::new(queue(&["cat"]));
    assert_eq!(session.handle_event(key('x')), Action::Continue);
    assert_eq!(session.handle_event(backspace()), Action::Continue);
    assert_eq!(session.handle_event(Event::Tick), Action::Continue);
    assert_eq!(
        session.handle_event(Event::Input(KeyEvent { code: KeyCode::Other, modifiers: 0 })),
        Action::Continue
    );
    assert!(!session.started);
    assert_eq!(session.input, "");
    assert_eq!(session.countdown, 3);
}

#[test]
fn happy_path_one_word() {
    let mut session = in_game(&["cat", "dog"], "", 0, 0);
    session.handle_event(key('c'));
    session.handle_event(key('a'));
    session.handle_event(key('t'));
    assert_eq!(session.input, "cat");
    assert_eq!(session.score, 0);
    assert_eq!(session.words_wanted(), 1);
    session.render_with(SECOND, queue(&["emu"]));
    assert_eq!(words_of(&session), vec!["dog", "emu"]);
    assert_eq!(session.input, "");
    assert_eq!(session.score, 1);
    assert_eq!(session.screen, MenuItem::Game);
}

#[test]
fn happy_path_one_word_from_the_dictionary() {
    let mut session = in_game(&["cat", "dog"], "", 0, 0);
    session.handle_event(key('c'));
    session.handle_event(key('a'));
    session.handle_event(key('t'));
    session.render(SECOND);
    let words = words_of(&session);
    assert_eq!(words.len(), 2);
    assert_eq!(words[0], "dog");
    assert!(!words[1].is_empty());
    assert!(!words[1].contains(' '));
    assert_eq!(session.input, "");
    assert_eq!(session.score, 1);
}

#[test]
fn match_is_found_at_the_render_pass_not_at_the_key() {
    let mut session = in_game(&["a", "dog"], "", 0, 0);
    session.handle_event(key('a'));
    assert!(session.matched());
    assert_eq!(session.score, 0);
    assert_eq!(words_of(&session), vec!["a", "dog"]);
}

#[test]
fn match_ignores_white_space_around_the_input() {
    let mut session = in_game(&["cat", "dog"], " \tcat  ", 4, 0);
    assert!(session.matched());
    session.render_with(SECOND, queue(&["emu"]));
    assert_eq!(session.score, 5);
    assert_eq!(words_of(&session), vec!["dog", "emu"]);
    let inner = in_game(&["cat", "dog"], "c at", 0, 0);
    assert!(!inner.matched());
}

#[test]
fn no_match_leaves_queue_and_score() {
    let mut session = in_game(&["cat", "dog"], "ca", 3, 0);
    assert_eq!(session.words_wanted(), 0);
    session.render_with(SECOND, VecDeque::new());
    assert_eq!(words_of(&session), vec!["cat", "dog"]);
    assert_eq!(session.input, "ca");
    assert_eq!(session.score, 3);
}

#[test]
fn backspace_mid_word() {
    let mut session = in_game(&["cat", "dog"], "ca", 0, 0);
    session.handle_event(backspace());
    assert_eq!(session.input, "c");
    session.handle_event(backspace());
    assert_eq!(session.input, "");
    session.handle_event(backspace());
    assert_eq!(session.input, "");
}

#[test]
fn ctrl_a_clears() {
    let mut session = in_game(&["cat", "dog"], "hello", 0, 0);
    assert_eq!(session.handle_event(control('a')), Action::Continue);
    assert_eq!(session.input, "");
}

#[test]
fn other_key_combinations_are_ignored() {
    let mut session = in_game(&["cat", "dog"], "he", 0, 0);
    session.handle_event(control('b'));
    session.handle_event(Event::Input(KeyEvent { code: KeyCode::Backspace, modifiers: CONTROL }));
    session.handle_event(Event::Input(KeyEvent { code: KeyCode::Char('A'), modifiers: 1 }));
    session.handle_event(Event::Input(KeyEvent { code: KeyCode::Char('a'), modifiers: 3 }));
    session.handle_event(Event::Input(KeyEvent { code: KeyCode::Other, modifiers: 0 }));
    session.handle_event(Event::Tick);
    assert_eq!(session.input, "he");
}

#[test]
fn timeout() {
    let now = 100 * SECOND;
    let mut session = in_game(&["cat", "dog"], "ca", 5, now - 60 * SECOND);
    let frame = session.render_with(now, VecDeque::new());
    assert_eq!(session.screen, MenuItem::GameOver);
    assert!(!session.started);
    assert_eq!(session.score, 5);
    match frame.bottom {
        BottomPane::Gauge { title, percent } => {
            assert_eq!(title, "Time Remaining: 0");
            assert_eq!(percent, 0);
        }
        BottomPane::Empty => panic!("the race was still drawn"),
    }
    let after = session.render_with(now, VecDeque::new());
    match after.top {
        TopPane::Banner(text) => {
            assert_eq!(text, "Game Over | Press 'r' to restart race | Score: 5")
        }
        _ => panic!("no banner"),
    }
}

#[test]
fn no_timeout_before_sixty_seconds() {
    let mut session = in_game(&["cat", "dog"], "", 5, 7);
    session.render_with(7 + 60 * SECOND - 1, VecDeque::new());
    assert_eq!(session.screen, MenuItem::Game);
    assert!(session.started);
    session.render_with(7 + 60 * SECOND, VecDeque::new());
    assert_eq!(session.screen, MenuItem::GameOver);
}

#[test]
fn clock_before_the_start_counts_as_no_time() {
    let mut session = in_game(&["cat", "dog"], "", 0, 10 * SECOND);
    assert_eq!(session.elapsed_secs(3), 0);
    session.render_with(3, VecDeque::new());
    assert_eq!(session.screen, MenuItem::Game);
}

#[test]
fn word_completed_at_the_last_pass_still_counts() {
    let mut session = in_game(&["cat", "dog"], "cat", 5, 0);
    session.render_with(61 * SECOND, queue(&["emu"]));
    assert_eq!(session.screen, MenuItem::GameOver);
    assert_eq!(session.score, 6);
}

#[test]
fn restart_from_game_over() {
    let mut session = game_over(7);
    assert_eq!(session.handle_event(key('r')), Action::Continue);
    assert_eq!(session.words_wanted(), QUEUE_LENGTH);
    session.render(5 * SECOND);
    assert_eq!(session.screen, MenuItem::Home);
    assert!(session.started);
    assert_eq!(session.countdown, 3);
    assert_eq!(session.score, 0);
    assert_eq!(session.words.len(), 100);
    assert!(session.words.iter().all(|w| !w.is_empty() && !w.contains(' ')));
    assert_eq!(session.input, "");
    assert!(session.is_valid());
}

#[test]
fn restart_takes_the_words_it_is_given() {
    let mut session = game_over(7);
    session.input = String::from("stale");
    session.handle_event(key('s'));
    let frame = session.render_with(0, queue(&["one", "two"]));
    assert_eq!(session.screen, MenuItem::Home);
    assert_eq!(words_of(&session), vec!["one", "two"]);
    assert_eq!(session.input, "");
    match frame.top {
        TopPane::Banner(text) => {
            assert_eq!(text, "Game Over | Press 'r' to restart race | Score: 0")
        }
        _ => panic!("no banner"),
    }
}

#[test]
fn game_over_without_a_start_key_stays() {
    let mut session = game_over(7);
    assert_eq!(session.words_wanted(), 0);
    session.render(5 * SECOND);
    assert_eq!(session.screen, MenuItem::GameOver);
    assert_eq!(session.score, 7);
    assert_eq!(words_of(&session), vec!["left", "over"]);
}

#[test]
fn countdown_runs_to_the_race() {
    let mut session = SessionState::new(queue(&["cat", "dog"]));
    session.render(0);
    assert_eq!(session.countdown, 3);
    assert_eq!(session.screen, MenuItem::Home);
    session.handle_event(key('s'));
    let mut shown = Vec::new();
    for pass in 1..=3u128 {
        session.handle_event(key('x'));
        let frame = session.render(pass * SECOND);
        match frame.middle {
            MiddlePane::Welcome(lines) => shown.push(lines.last().unwrap().text.clone()),
            _ => panic!("not the home screen"),
        }
        assert_eq!(session.countdown as u128, 3 - pass);
    }
    assert_eq!(shown, vec!["Starting race in 3", "Starting race in 2", "Starting race in 1"]);
    assert_eq!(session.screen, MenuItem::Game);
    assert_eq!(session.game_start, Some(3 * SECOND));
    assert_eq!(session.input, "");
    assert!(session.started);
    assert!(session.is_valid());
}

#[test]
fn score_never_falls_within_a_race() {
    let mut session = in_game(&["a", "b", "c"], "", 0, 0);
    let mut last = session.score;
    let typed = ['a', 'x', 'b', 'b', 'c', 'q', 's', 'r'];
    for (i, c) in typed.iter().enumerate() {
        session.handle_event(backspace());
        assert!(session.score >= last);
        session.handle_event(key(*c));
        assert!(session.score >= last);
        session.render((i as u128) * SECOND);
        assert!(session.score >= last);
        last = session.score;
        assert!(session.is_valid());
        assert!(!session.words.is_empty());
        assert!(session.game_start.is_some());
    }
    assert_eq!(session.score, 3);
    assert_eq!(session.words.len(), 3);
}

#[test]
fn full_round_trip() {
    let mut session = SessionState::new(queue(&["go", "on"]));
    session.handle_event(key('s'));
    for pass in 0..3u128 {
        session.render(pass);
    }
    assert_eq!(session.screen, MenuItem::Game);
    session.handle_event(key('g'));
    session.handle_event(key('o'));
    session.render(SECOND);
    assert_eq!(session.score, 1);
    session.render(2 + 60 * SECOND);
    assert_eq!(session.screen, MenuItem::GameOver);
    assert!(!session.started);
    assert_eq!(session.score, 1);
    session.handle_event(key('r'));
    assert_eq!(session.score, 0);
    session.render(70 * SECOND);
    assert_eq!(session.screen, MenuItem::Home);
    assert_eq!(session.words.len(), 100);
    assert_eq!(session.countdown, 3);
}

#[test]
fn validity_check_tells_broken_sessions() {
    let mut session = in_game(&["cat"], "", 0, 0);
    assert!(session.is_valid());
    session.game_start = None;
    assert!(!session.is_valid());
    let mut session = in_game(&["cat"], "", 0, 0);
    session.started = false;
    assert!(!session.is_valid());
    let mut session = in_game(&["cat"], "", 0, 0);
    session.words.clear();
    assert!(!session.is_valid());
    assert!(!session.matched());
    let mut session = SessionState::new(queue(&["cat"]));
    session.countdown = 4;
    assert!(!session.is_valid());
}

#[test]
fn menu_item_index() {
    assert_eq!(usize::from(MenuItem::Home), 0);
    assert_eq!(usize::from(MenuItem::Game), 1);
    assert_eq!(usize::from(MenuItem::GameOver), 2);
}
