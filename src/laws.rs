//! Properties of whole play sequences, proved over the session model.
use crate::game::{right_button, AnswerButton, AnswerOutcome, GameView, CLEAR_STREAK, DISAPPEAR_NANOS, FLICKER_NANOS};
use crate::timer::Timer;
use vstd::prelude::*;

verus! {

/// The answer that judges the problem shown rightly.
pub open spec fn right_answer(v: GameView) -> AnswerButton {
    match v.current_problem {
        Some(p) => right_button(p),
        None => AnswerButton::Lgtm,
    }
}

/// Whether every drawn slot lies in the pool.
pub open spec fn draws_in_pool(v: GameView, draws: Seq<int>) -> bool {
    forall|i: int| 0 <= i < draws.len() ==> 0 <= #[trigger] draws[i] < v.problems.len()
}

/// Rounds of right answers, each followed by the reveal of the next problem
/// from the given drawn slot.
pub open spec fn play_right(v: GameView, draws: Seq<int>) -> GameView
    decreases draws.len(),
{
    if draws.len() == 0 {
        v
    } else {
        play_right(v.after_answer(right_answer(v)).after_reveal(draws[0]), draws.drop_first())
    }
}

/// The total of a run of tick lengths.
pub open spec fn total(deltas: Seq<u64>) -> int
    decreases deltas.len(),
{
    if deltas.len() == 0 { 0 } else { deltas[0] + total(deltas.drop_first()) }
}

/// A total of tick lengths is never negative.
pub proof fn lemma_total_nonneg(deltas: Seq<u64>)
    ensures
        total(deltas) >= 0,
    decreases deltas.len(),
{
    if deltas.len() > 0 {
        lemma_total_nonneg(deltas.drop_first());
    }
}

/// The session after a run of transition ticks that draw no slot.
pub open spec fn flicker_ticks(v: GameView, deltas: Seq<u64>) -> GameView
    decreases deltas.len(),
{
    if deltas.len() == 0 {
        v
    } else {
        flicker_ticks(v.after_flicker_tick(deltas[0], 0), deltas.drop_first())
    }
}

/// The session after a run of disappear-timer ticks.
pub open spec fn disappear_ticks(v: GameView, deltas: Seq<u64>) -> GameView
    decreases deltas.len(),
{
    if deltas.len() == 0 {
        v
    } else {
        disappear_ticks(v.after_disappear_tick(deltas[0]), deltas.drop_first())
    }
}

/// Every answer keeps the session well formed.
pub proof fn lemma_answer_wf(v: GameView, button: AnswerButton)
    requires
        v.wf(),
    ensures
        v.after_answer(button).wf(),
{
}

/// Revealing a problem from a drawn slot in the pool keeps the session well formed.
pub proof fn lemma_reveal_wf(v: GameView, drawn: int)
    requires
        v.wf(),
        v.is_waiting,
        0 <= drawn < v.problems.len(),
    ensures
        v.after_reveal(drawn).wf(),
{
}

/// Past the tutorial, each right answer adds one to the streak, and the
/// index stays one ahead of the streak while the streak is below 8.
pub proof fn lemma_right_answers_count(v: GameView, draws: Seq<int>)
    requires
        v.wf(),
        !v.is_waiting,
        v.current_index != 0,
        v.correct_streak + draws.len() < CLEAR_STREAK,
        draws_in_pool(v, draws),
    ensures
        play_right(v, draws).wf(),
        !play_right(v, draws).is_waiting,
        play_right(v, draws).correct_streak == v.correct_streak + draws.len(),
        play_right(v, draws).current_index == play_right(v, draws).correct_streak + 1,
    decreases draws.len(),
{
    if draws.len() > 0 {
        let w = v.after_answer(right_answer(v));
        let u = w.after_reveal(draws[0]);
        assert(v.current_problem.is_some());
        lemma_answer_wf(v, right_answer(v));
        lemma_reveal_wf(w, draws[0]);
        assert(draws_in_pool(u, draws.drop_first())) by {
            assert forall|i: int| 0 <= i < draws.drop_first().len() implies
                0 <= #[trigger] draws.drop_first()[i] < u.problems.len() by {
                assert(draws.drop_first()[i] == draws[i + 1]);
            }
        }
        lemma_right_answers_count(u, draws.drop_first());
    }
}

/// From a fresh session, after the tutorial answer and then `n` right answers
/// (`n` below 8), the streak is `n` and the index is `n + 1`.
pub proof fn lemma_fresh_right_answers_count(draws: Seq<int>)
    requires
        1 <= draws.len() <= CLEAR_STREAK,
        draws_in_pool(GameView::initial(), draws),
    ensures
        play_right(GameView::initial(), draws).correct_streak == draws.len() - 1,
        play_right(GameView::initial(), draws).current_index == draws.len(),
{
    let v = GameView::initial();
    let w = v.after_answer(right_answer(v));
    let u = w.after_reveal(draws[0]);
    lemma_answer_wf(v, right_answer(v));
    lemma_reveal_wf(w, draws[0]);
    assert(draws_in_pool(u, draws.drop_first())) by {
        assert forall|i: int| 0 <= i < draws.drop_first().len() implies
            0 <= #[trigger] draws.drop_first()[i] < u.problems.len() by {
            assert(draws.drop_first()[i] == draws[i + 1]);
        }
    }
    lemma_right_answers_count(u, draws.drop_first());
}

/// The game is cleared by an answer exactly when it is the right answer past
/// the tutorial with a streak of 7; it then resets the streak and the index
/// to 0 and puts up the clear banner.
pub proof fn lemma_clear(v: GameView, button: AnswerButton)
    requires
        v.wf(),
    ensures
        (v.answer_outcome(button) == AnswerOutcome::Cleared) <==> (!v.is_waiting
            && v.current_index != 0 && v.correct_streak == CLEAR_STREAK - 1
            && button == right_answer(v)),
        v.answer_outcome(button) == AnswerOutcome::Cleared ==> {
            &&& v.after_answer(button).correct_streak == 0
            &&& v.after_answer(button).current_index == 0
            &&& v.after_answer(button).clear_banner
        },
{
}

/// A wrong answer resets the streak to 0 and the index to 1, whatever the
/// index was.
pub proof fn lemma_wrong_answer(v: GameView, button: AnswerButton)
    requires
        v.wf(),
        !v.is_waiting,
        !v.judges_correct(button),
    ensures
        v.answer_outcome(button) == AnswerOutcome::Incorrect,
        v.after_answer(button).correct_streak == 0,
        v.after_answer(button).current_index == 1,
{
}

/// While a transition is in progress an answer changes nothing.
pub proof fn lemma_waiting_ignores_answers(v: GameView, button: AnswerButton)
    requires
        v.is_waiting,
    ensures
        v.after_answer(button) == v,
        v.answer_outcome(button) == AnswerOutcome::Ignored,
{
}

/// An accepted answer starts a transition with the blackout up and the
/// flicker timer unstarted.
pub proof fn lemma_answer_starts_transition(v: GameView, button: AnswerButton)
    requires
        v.wf(),
        !v.is_waiting,
    ensures
        v.after_answer(button).is_waiting,
        v.after_answer(button).blackout,
        v.after_answer(button).flicker_timer == Timer::fresh(FLICKER_NANOS),
{
}

/// Ticks that together stay short of the flicker timer's end only advance
/// that timer: the session keeps waiting and nothing else changes.
pub proof fn lemma_waiting_until_flicker(v: GameView, deltas: Seq<u64>)
    requires
        v.wf(),
        v.is_waiting,
        v.flicker_timer.elapsed_nanos + total(deltas) < FLICKER_NANOS,
    ensures
        flicker_ticks(v, deltas) == (GameView {
            flicker_timer: Timer {
                elapsed_nanos: (v.flicker_timer.elapsed_nanos + total(deltas)) as u64,
                ..v.flicker_timer
            },
            ..v
        }),
        flicker_ticks(v, deltas).is_waiting,
    decreases deltas.len(),
{
    lemma_total_nonneg(deltas);
    if deltas.len() > 0 {
        let w = v.after_flicker_tick(deltas[0], 0);
        lemma_total_nonneg(deltas.drop_first());
        lemma_waiting_until_flicker(w, deltas.drop_first());
    }
}

/// The tick that reaches the flicker timer's end reveals one problem, from
/// the drawn slot, and ends the wait; later transition ticks change nothing
/// until the next answer.
pub proof fn lemma_flicker_reveals_once(v: GameView, delta: u64, drawn: int, later: u64, redrawn: int)
    requires
        v.wf(),
        v.is_waiting,
        v.flicker_timer.elapsed_nanos + delta >= FLICKER_NANOS,
        0 <= drawn < v.problems.len(),
    ensures
        v.flicker_fires(delta),
        v.after_flicker_tick(delta, drawn) == v.after_reveal(drawn),
        !v.after_flicker_tick(delta, drawn).is_waiting,
        v.after_flicker_tick(delta, drawn).current_problem == Some(v.problems[v.next_slot(drawn)]),
        !v.after_flicker_tick(delta, drawn).flicker_fires(later),
        v.after_flicker_tick(delta, drawn).after_flicker_tick(later, redrawn)
            == v.after_flicker_tick(delta, drawn),
{
}

/// A reveal arms the disappear timer, for 5 s from the start, exactly when
/// the problem revealed hides itself.
pub proof fn lemma_reveal_arms_iff_auto_hide(v: GameView, drawn: int)
    requires
        v.wf(),
        v.is_waiting,
        0 <= drawn < v.problems.len(),
    ensures
        v.after_reveal(drawn).disappear_timer.is_some() <==> v.problems[v.next_slot(drawn)].auto_hides(),
        v.problems[v.next_slot(drawn)].auto_hides() ==> v.after_reveal(drawn).disappear_timer
            == Some(Timer::fresh(DISAPPEAR_NANOS)),
{
}

/// Ticks that together stay short of the disappear timer's end leave the
/// text shown and only advance that timer.
pub proof fn lemma_text_stays_until_disappear(v: GameView, t: Timer, deltas: Seq<u64>)
    requires
        v.wf(),
        v.disappear_timer == Some(t),
        t.elapsed_nanos + total(deltas) < DISAPPEAR_NANOS,
    ensures
        disappear_ticks(v, deltas) == (GameView {
            disappear_timer: Some(Timer {
                elapsed_nanos: (t.elapsed_nanos + total(deltas)) as u64,
                ..t
            }),
            ..v
        }),
    decreases deltas.len(),
{
    lemma_total_nonneg(deltas);
    if deltas.len() > 0 {
        let w = v.after_disappear_tick(deltas[0]);
        lemma_total_nonneg(deltas.drop_first());
        lemma_text_stays_until_disappear(w, Timer { elapsed_nanos: (t.elapsed_nanos + deltas[0]) as u64, ..t }, deltas.drop_first());
    }
}

/// The tick that reaches the disappear timer's end clears the text and
/// disarms the timer, leaving the rest of the session as it was; after that
/// no tick of it changes anything.
pub proof fn lemma_disappear_fires_once(v: GameView, t: Timer, delta: u64, later: Seq<u64>)
    requires
        v.wf(),
        v.disappear_timer == Some(t),
        t.elapsed_nanos + delta >= DISAPPEAR_NANOS,
    ensures
        v.disappear_fires(delta),
        v.after_disappear_tick(delta) == (GameView { code_text: Seq::empty(), disappear_timer: None, ..v }),
        disappear_ticks(v.after_disappear_tick(delta), later) == v.after_disappear_tick(delta),
    decreases later.len(),
{
    if later.len() > 0 {
        lemma_idle_disappear_ticks(v.after_disappear_tick(delta), later);
    }
}

/// With no disappear timer armed, its ticks change nothing.
pub proof fn lemma_idle_disappear_ticks(v: GameView, deltas: Seq<u64>)
    requires
        v.disappear_timer is None,
    ensures
        disappear_ticks(v, deltas) == v,
    decreases deltas.len(),
{
    if deltas.len() > 0 {
        lemma_idle_disappear_ticks(v.after_disappear_tick(deltas[0]), deltas.drop_first());
    }
}

} // verus!
