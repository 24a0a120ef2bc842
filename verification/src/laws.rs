//! What holds of every session, stated over the model and proved from it.

use crate::event::{Event, KeyCode, KeyEvent, CONTROL};
use crate::screen::MenuItem;
use crate::session::{SessionView, NANOS_PER_SECOND, RACE_SECONDS};
use crate::text::{is_trim_range, lemma_trim_range};
use crate::words::is_word;
use vstd::prelude::*;

verus! {

/// One step of the controller: an event taken in, or a render pass made at
/// `now` with `fresh` as the supplier's words.
pub enum Step {
    Event(Event<KeyEvent>),
    Render { now: nat, fresh: Seq<Seq<char>> },
}

/// The session after one step.
pub open spec fn step(s: SessionView, by: Step) -> SessionView {
    match by {
        Step::Event(event) => s.on_event(event),
        Step::Render { now, fresh } => s.on_render(now, fresh),
    }
}

/// The session after the steps, taken in order.
pub open spec fn run(s: SessionView, steps: Seq<Step>) -> SessionView
    decreases steps.len(),
{
    if steps.len() == 0 {
        s
    } else {
        step(run(s, steps.drop_last()), steps.last())
    }
}

/// The step begins a race: a key that an idle session takes for a start.
pub open spec fn is_race_start(s: SessionView, by: Step) -> bool {
    by matches Step::Event(event) && s.starts_race(event)
}

/// None of the steps, each taken in the state that the earlier ones lead to,
/// begins a race.
pub open spec fn no_race_start(s: SessionView, steps: Seq<Step>) -> bool
    decreases steps.len(),
{
    steps.len() == 0 || (no_race_start(s, steps.drop_last()) && !is_race_start(
        run(s, steps.drop_last()),
        steps.last(),
    ))
}

/// The supplier has delivered to a render pass as many words as it takes.
pub open spec fn is_supplied(s: SessionView, by: Step) -> bool {
    by matches Step::Render { now, fresh } ==> fresh.len() == s.words_wanted()
}

/// Each render pass among the steps, in the state that the earlier steps
/// lead to, has got as many words as it takes.
pub open spec fn all_supplied(s: SessionView, steps: Seq<Step>) -> bool
    decreases steps.len(),
{
    steps.len() == 0 || (all_supplied(s, steps.drop_last()) && is_supplied(
        run(s, steps.drop_last()),
        steps.last(),
    ))
}

/// A step that does not begin a race never lowers the score.
pub proof fn law_score_step(s: SessionView, by: Step)
    requires
        !is_race_start(s, by),
    ensures
        step(s, by).score >= s.score,
{
}

/// Between two race starts the score never falls: over any steps none of
/// which begins a race, the score at the end is at least the score at the
/// beginning.
pub proof fn law_score_monotonic(s: SessionView, steps: Seq<Step>)
    requires
        no_race_start(s, steps),
    ensures
        run(s, steps).score >= s.score,
    decreases steps.len(),
{
    if steps.len() > 0 {
        law_score_monotonic(s, steps.drop_last());
        law_score_step(run(s, steps.drop_last()), steps.last());
    }
}

/// A step that begins a race sets the score to zero.
pub proof fn law_race_start_resets(s: SessionView, by: Step)
    requires
        is_race_start(s, by),
    ensures
        step(s, by).score == 0,
        step(s, by).started,
{
}

/// A session begins within its invariant.
pub proof fn law_initial_valid(words: Seq<Seq<char>>)
    requires
        words.len() >= 1,
    ensures
        SessionView::initial(words).wf(),
{
}

/// Every step keeps the invariant, as long as the supplier delivers to a
/// render pass as many words as it takes.
pub proof fn law_step_valid(s: SessionView, by: Step)
    requires
        s.wf(),
        is_supplied(s, by),
    ensures
        step(s, by).wf(),
{
}

/// After every controller step of a session that began within its invariant,
/// a session on the Game screen has a word to type and a beginning of its
/// race.
pub proof fn law_game_has_word_and_start(s: SessionView, steps: Seq<Step>)
    requires
        s.wf(),
        all_supplied(s, steps),
    ensures
        run(s, steps).wf(),
        run(s, steps).screen == MenuItem::Game ==> run(s, steps).words.len() >= 1 && run(
            s,
            steps,
        ).game_start is Some,
    decreases steps.len(),
{
    if steps.len() > 0 {
        law_game_has_word_and_start(s, steps.drop_last());
        law_step_valid(run(s, steps.drop_last()), steps.last());
    }
}

/// The step is a render pass of the Game screen at a clock reading that lies
/// sixty seconds or more behind the beginning of the race.
pub open spec fn is_time_out(s: SessionView, by: Step) -> bool {
    &&& by matches Step::Render { now, fresh }
    &&& s.screen == MenuItem::Game
    &&& s.game_start matches Some(at)
    &&& now - at >= RACE_SECONDS * NANOS_PER_SECOND
}

/// A step takes a session onto the GameOver screen exactly when it is a
/// render pass of the Game screen at which sixty seconds or more have passed
/// since the race began.
pub proof fn law_game_over(s: SessionView, by: Step)
    requires
        s.wf(),
    ensures
        (s.screen != MenuItem::GameOver && step(s, by).screen == MenuItem::GameOver)
            <==> is_time_out(s, by),
        s.screen != MenuItem::GameOver && step(s, by).screen == MenuItem::GameOver ==> !step(
            s,
            by,
        ).started,
{
    match by {
        Step::Render { now, fresh } => {
            if s.screen == MenuItem::Game {
                let at = s.game_start->0;
                let checked = s.word_checked(fresh);
                assert(checked.game_start == s.game_start);
                if now >= at {
                    let passed = (now - at) as nat;
                    let unit = NANOS_PER_SECOND as nat;
                    assert(passed / unit >= 60 <==> passed >= 60 * unit) by (nonlinear_arith)
                        requires
                            unit > 0,
                    ;
                }
            }
        },
        Step::Event(event) => {},
    }
}

/// The key `q`, whatever is held with it, makes an idle session end the
/// program and leaves its state as it was; once a race was asked for, no
/// event ends the program.
pub proof fn law_quit_when_idle(s: SessionView, modifiers: u8, event: Event<KeyEvent>)
    ensures
        !s.started ==> s.quits(Event::Input(KeyEvent { code: KeyCode::Char('q'), modifiers })),
        s.quits(event) ==> s.on_event(event) == s,
        s.started ==> !s.quits(event),
{
}

/// Control-A on the Game screen empties the input line in that one event.
pub proof fn law_control_a_clears(s: SessionView)
    requires
        s.wf(),
        s.screen == MenuItem::Game,
    ensures
        s.on_event(
            Event::Input(KeyEvent { code: KeyCode::Char('a'), modifiers: CONTROL }),
        ).input.len() == 0,
{
}

/// A word typed exactly as it stands at the head of the queue is a completed
/// word.
pub proof fn law_typed_word_matches(s: SessionView)
    requires
        s.words.len() >= 1,
        is_word(s.words[0]),
        s.input == s.words[0],
    ensures
        s.matched(),
{
    let typed = s.input;
    assert(typed.subrange(0, typed.len() as int) =~= typed);
    assert(is_trim_range(typed, 0, typed.len() as int));
    lemma_trim_range(typed, 0, typed.len() as int);
}

/// A completed word, at a render pass of the Game screen that got its one
/// fresh word, raises the score by exactly one and moves the queue on by
/// exactly one: the head leaves, the fresh word joins the tail, the rest
/// stays as it was. Without a completed word, score and queue stay.
pub proof fn law_match_scores_one(s: SessionView, now: nat, fresh: Seq<Seq<char>>)
    requires
        s.wf(),
        s.screen == MenuItem::Game,
        fresh.len() == s.words_wanted(),
    ensures
        s.matched() ==> {
            &&& s.on_render(now, fresh).score == s.score + 1
            &&& s.on_render(now, fresh).words == s.words.drop_first().push(fresh[0])
            &&& s.on_render(now, fresh).words.len() == s.words.len()
            &&& s.on_render(now, fresh).input.len() == 0
        },
        !s.matched() ==> {
            &&& s.on_render(now, fresh).score == s.score
            &&& s.on_render(now, fresh).words == s.words
            &&& s.on_render(now, fresh).input == s.input
        },
{
    if s.matched() {
        assert(s.words.drop_first() + fresh =~= s.words.drop_first().push(fresh[0]));
    }
}

} // verus!
