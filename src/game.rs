use crate::draw::draw_index;
use crate::problem::{generate_problem_pool, problem_pool, Problem, PAGE};
use crate::timer::{Timer, NANOS_PER_SEC};
use vstd::prelude::*;

verus! {

/// Pause between an accepted answer and the next problem showing: 0.3 s.
pub const FLICKER_NANOS: u64 = 300_000_000;

/// How long a self-hiding problem stays on screen: 5 s.
pub const DISAPPEAR_NANOS: u64 = 5 * NANOS_PER_SEC;

/// Consecutive correct answers that clear the game.
pub const CLEAR_STREAK: usize = 8;

/// The two answers a player can give.
#[derive(Clone, Copy, Debug, PartialEq, Eq, Structural)]
pub enum AnswerButton {
    /// "Looks good to me": the code is right.
    Lgtm,
    /// "Hmm": the code is wrong.
    Hmm,
}

/// What an answer did.
#[derive(Clone, Copy, Debug, PartialEq, Eq, Structural)]
pub enum AnswerOutcome {
    /// A transition was in progress; the answer was dropped.
    Ignored,
    /// Judged correct (the tutorial answer always is).
    Correct,
    /// Judged wrong: the streak starts over.
    Incorrect,
    /// The correct answer that completed the streak: the game is cleared.
    Cleared,
}

/// What the host shows.
#[derive(Debug)]
pub struct Screen {
    /// The problem text; empty while hidden.
    pub code_text: String,
    /// The progress indicator.
    pub progress_label: String,
    /// Whether the full-screen blackout cover is up.
    pub blackout: bool,
    /// Whether the clear banner has been shown; it is never taken down.
    pub clear_banner: bool,
}

/// The whole session, owned by the host's tick loop.
#[derive(Debug)]
pub struct GameState {
    /// A transition to the next problem is in progress; answers are dropped.
    pub is_waiting: bool,
    /// 0 in the tutorial phase, else the slot of the problem being judged.
    pub current_index: usize,
    /// Consecutive correct answers since the last reset.
    pub correct_streak: usize,
    pub problems: Vec<Problem>,
    pub current_problem: Option<Problem>,
    /// Armed when a self-hiding problem is revealed.
    pub disappear_timer: Option<Timer>,
    /// Gates how soon after an answer the next problem shows.
    pub flicker_timer: Timer,
    pub screen: Screen,
}

/// The mathematical model of a session.
pub struct GameView {
    pub is_waiting: bool,
    pub current_index: int,
    pub correct_streak: int,
    pub problems: Seq<Problem>,
    pub current_problem: Option<Problem>,
    pub disappear_timer: Option<Timer>,
    pub flicker_timer: Timer,
    pub code_text: Seq<char>,
    pub progress_label: Seq<char>,
    pub blackout: bool,
    pub clear_banner: bool,
}

impl View for GameState {
    type V = GameView;

    open spec fn view(&self) -> GameView {
        GameView {
            is_waiting: self.is_waiting,
            current_index: self.current_index as int,
            correct_streak: self.correct_streak as int,
            problems: self.problems@,
            current_problem: self.current_problem,
            disappear_timer: self.disappear_timer,
            flicker_timer: self.flicker_timer,
            code_text: self.screen.code_text@,
            progress_label: self.screen.progress_label@,
            blackout: self.screen.blackout,
            clear_banner: self.screen.clear_banner,
        }
    }
}

/// The digit for a problem number from 1 to 8.
pub open spec fn digit_text(n: int) -> Seq<char> {
    if n == 1 { "1"@ }
    else if n == 2 { "2"@ }
    else if n == 3 { "3"@ }
    else if n == 4 { "4"@ }
    else if n == 5 { "5"@ }
    else if n == 6 { "6"@ }
    else if n == 7 { "7"@ }
    else { "8"@ }
}

/// The progress label: a bare label in the tutorial phase, else the number
/// of the problem being worked on out of 8.
pub open spec fn progress_text(index: int, streak: int) -> Seq<char> {
    if index == 0 {
        "Platform"@
    } else {
        "Platform "@ + digit_text(streak + 1) + "/8"@
    }
}

/// The button that judges `p` rightly.
pub open spec fn right_button(p: Problem) -> AnswerButton {
    if p.is_correct { AnswerButton::Lgtm } else { AnswerButton::Hmm }
}

impl GameView {
    pub open spec fn wf(self) -> bool {
        &&& 1 <= self.problems.len()
        &&& 0 <= self.correct_streak < CLEAR_STREAK
        &&& (self.current_index == 0 && self.correct_streak == 0)
            || self.current_index == self.correct_streak + 1
        &&& self.current_problem.is_some()
        &&& self.blackout == self.is_waiting
        &&& self.flicker_timer.wf()
        &&& self.flicker_timer.duration_nanos == FLICKER_NANOS
        &&& !self.flicker_timer.finished
        &&& !self.is_waiting ==> self.flicker_timer == Timer::fresh(FLICKER_NANOS)
        &&& self.disappear_timer matches Some(t) ==> {
            &&& t.wf()
            &&& t.duration_nanos == DISAPPEAR_NANOS
            &&& !t.finished
        }
    }

    /// The session as it starts.
    pub open spec fn initial() -> GameView {
        GameView {
            is_waiting: false,
            current_index: 0,
            correct_streak: 0,
            problems: problem_pool(),
            current_problem: Some(problem_pool()[0]),
            disappear_timer: None,
            flicker_timer: Timer::fresh(FLICKER_NANOS),
            code_text: PAGE@,
            progress_label: "Platform 0"@,
            blackout: false,
            clear_banner: false,
        }
    }

    /// Whether `button` is judged correct on the problem shown.
    pub open spec fn judges_correct(self, button: AnswerButton) -> bool {
        self.current_index == 0 || match self.current_problem {
            Some(p) => button == right_button(p),
            None => false,
        }
    }

    pub open spec fn answer_outcome(self, button: AnswerButton) -> AnswerOutcome {
        if self.is_waiting {
            AnswerOutcome::Ignored
        } else if self.current_index == 0 {
            AnswerOutcome::Correct
        } else if self.judges_correct(button) {
            if self.correct_streak + 1 >= CLEAR_STREAK {
                AnswerOutcome::Cleared
            } else {
                AnswerOutcome::Correct
            }
        } else {
            AnswerOutcome::Incorrect
        }
    }

    /// The session after `button` is pressed.
    pub open spec fn after_answer(self, button: AnswerButton) -> GameView {
        let outcome = self.answer_outcome(button);
        let (index, streak) = match outcome {
            AnswerOutcome::Ignored => (self.current_index, self.correct_streak),
            AnswerOutcome::Correct => if self.current_index == 0 {
                (1, self.correct_streak)
            } else {
                (self.current_index + 1, self.correct_streak + 1)
            },
            AnswerOutcome::Incorrect => (1, 0),
            AnswerOutcome::Cleared => (0, 0),
        };
        if self.is_waiting {
            self
        } else {
            GameView {
                is_waiting: true,
                current_index: index,
                correct_streak: streak,
                code_text: Seq::empty(),
                progress_label: progress_text(index, streak),
                blackout: true,
                clear_banner: self.clear_banner || outcome == AnswerOutcome::Cleared,
                ..self
            }
        }
    }

    /// The slot shown next: the tutorial in the tutorial phase, else the drawn one.
    pub open spec fn next_slot(self, drawn: int) -> int {
        if self.current_index == 0 { 0 } else { drawn }
    }

    /// The session once the next problem is revealed, `drawn` being the
    /// randomly drawn slot.
    pub open spec fn after_reveal(self, drawn: int) -> GameView {
        let p = self.problems[self.next_slot(drawn)];
        GameView {
            is_waiting: false,
            current_index: if self.current_index == 0 { 1 } else { self.current_index },
            current_problem: Some(p),
            disappear_timer: if p.auto_hides() {
                Some(Timer::fresh(DISAPPEAR_NANOS))
            } else {
                None
            },
            flicker_timer: Timer::fresh(self.flicker_timer.duration_nanos),
            code_text: p.code@,
            blackout: false,
            ..self
        }
    }

    /// Whether a tick of `delta` nanoseconds ends the transition.
    pub open spec fn flicker_fires(self, delta: u64) -> bool {
        self.is_waiting && self.flicker_timer.finishes_on(delta)
    }

    /// The session after a tick of the transition, `drawn` being the slot
    /// drawn should the next problem be revealed.
    pub open spec fn after_flicker_tick(self, delta: u64, drawn: int) -> GameView {
        if !self.is_waiting {
            self
        } else if self.flicker_timer.finishes_on(delta) {
            self.after_reveal(drawn)
        } else {
            GameView { flicker_timer: self.flicker_timer.ticked(delta), ..self }
        }
    }

    /// Whether a tick of `delta` nanoseconds hides the problem text.
    pub open spec fn disappear_fires(self, delta: u64) -> bool {
        self.disappear_timer matches Some(t) && t.finishes_on(delta)
    }

    /// The session after a tick of the disappear timer.
    pub open spec fn after_disappear_tick(self, delta: u64) -> GameView {
        match self.disappear_timer {
            None => self,
            Some(t) => if t.finishes_on(delta) {
                GameView { code_text: Seq::empty(), disappear_timer: None, ..self }
            } else {
                GameView { disappear_timer: Some(t.ticked(delta)), ..self }
            },
        }
    }
}

/// The digit for a problem number from 1 to 8.
fn digit(n: usize) -> (r: &'static str)
    requires
        1 <= n <= 8,
    ensures
        r@ == digit_text(n as int),
{
    match n {
        1 => "1",
        2 => "2",
        3 => "3",
        4 => "4",
        5 => "5",
        6 => "6",
        7 => "7",
        _ => "8",
    }
}

/// Builds the progress label for the given index and streak.
pub fn progress_label(index: usize, streak: usize) -> (r: String)
    requires
        streak < CLEAR_STREAK,
    ensures
        r@ == progress_text(index as int, streak as int),
{
    if index == 0 {
        String::from_str("Platform")
    } else {
        let s = String::from_str("Platform ");
        let s = s.concat(digit(streak + 1));
        s.concat("/8")
    }
}

impl GameState {
    /// A fresh session: the tutorial problem on screen, nothing answered.
    pub fn new() -> (r: GameState)
        ensures
            r@ == GameView::initial(),
            r@.wf(),
    {
        let problems = generate_problem_pool();
        let first = problems[0];
        let code_text = String::from_str(first.code);
        let progress_label = String::from_str("Platform 0");
        GameState {
            is_waiting: false,
            current_index: 0,
            correct_streak: 0,
            problems,
            current_problem: Some(first),
            disappear_timer: None,
            flicker_timer: Timer::once(FLICKER_NANOS),
            screen: Screen { code_text, progress_label, blackout: false, clear_banner: false },
        }
    }
    /// Judges `button` against the problem shown and starts the transition to
    /// the next one; dropped while a transition is in progress.
    pub fn submit_answer(&mut self, button: AnswerButton) -> (r: AnswerOutcome)
        requires
            old(self)@.wf(),
        ensures
            final(self)@ == old(self)@.after_answer(button),
            r == old(self)@.answer_outcome(button),
            final(self)@.wf(),
    {
        if self.is_waiting {
            return AnswerOutcome::Ignored;
        }
        let outcome = if self.current_index == 0 {
            self.current_index = 1;
            AnswerOutcome::Correct
        } else {
            let correct = match self.current_problem {
                Some(p) => match button {
                    AnswerButton::Lgtm => p.is_correct,
                    AnswerButton::Hmm => !p.is_correct,
                },
                None => false,
            };
            if correct {
                self.correct_streak = self.correct_streak + 1;
                self.current_index = self.current_index + 1;
                if self.correct_streak >= CLEAR_STREAK {
                    self.correct_streak = 0;
                    self.current_index = 0;
                    self.screen.clear_banner = true;
                    AnswerOutcome::Cleared
                } else {
                    AnswerOutcome::Correct
                }
            } else {
                self.correct_streak = 0;
                self.current_index = 1;
                AnswerOutcome::Incorrect
            }
        };
        self.is_waiting = true;
        self.screen.blackout = true;
        self.screen.code_text = String::new();
        self.screen.progress_label = progress_label(self.current_index, self.correct_streak);
        outcome
    }

    /// Ends the transition: shows the next problem (the tutorial in the
    /// tutorial phase, else slot `drawn`), lifts the blackout, and arms the
    /// disappear timer exactly when that problem hides itself.
    pub fn reveal_next_problem(&mut self, drawn: usize)
        requires
            old(self)@.wf(),
            old(self).is_waiting,
            drawn < old(self).problems.len(),
        ensures
            final(self)@ == old(self)@.after_reveal(drawn as int),
            final(self)@.wf(),
    {
        let slot = if self.current_index == 0 { 0 } else { drawn };
        let p = self.problems[slot];
        self.current_problem = Some(p);
        self.screen.code_text = String::from_str(p.code);
        self.screen.blackout = false;
        if self.current_index == 0 {
            self.current_index = 1;
        }
        self.is_waiting = false;
        self.flicker_timer.reset();
        if p.is_auto_hide() {
            self.disappear_timer = Some(Timer::once(DISAPPEAR_NANOS));
        } else {
            self.disappear_timer = None;
        }
    }

    /// Advances the transition by `delta` nanoseconds. When the flicker timer
    /// finishes, draws a slot at random (outside the tutorial phase), reveals
    /// the next problem and returns the slot drawn.
    pub fn next_problem_ready_system(&mut self, delta: u64) -> (r: Option<usize>)
        requires
            old(self)@.wf(),
        ensures
            final(self)@.wf(),
            r.is_some() == old(self)@.flicker_fires(delta),
            match r {
                Some(d) => d < old(self).problems.len()
                    && final(self)@ == old(self)@.after_flicker_tick(delta, d as int),
                None => final(self)@ == old(self)@.after_flicker_tick(delta, 0),
            },
    {
        if !self.is_waiting {
            return None;
        }
        let mut t = self.flicker_timer;
        if !t.tick(delta) {
            self.flicker_timer = t;
            return None;
        }
        let drawn = if self.current_index == 0 {
            0
        } else {
            draw_index(self.problems.len())
        };
        self.reveal_next_problem(drawn);
        Some(drawn)
    }

    /// Advances the disappear timer by `delta` nanoseconds; when it finishes,
    /// clears the problem text and disarms the timer. Returns whether it fired.
    pub fn problem_disappear_system(&mut self, delta: u64) -> (r: bool)
        requires
            old(self)@.wf(),
        ensures
            final(self)@ == old(self)@.after_disappear_tick(delta),
            r == old(self)@.disappear_fires(delta),
            final(self)@.wf(),
    {
        match self.disappear_timer {
            None => false,
            Some(t) => {
                let mut t = t;
                if t.tick(delta) {
                    self.screen.code_text = String::new();
                    self.disappear_timer = None;
                    true
                } else {
                    self.disappear_timer = Some(t);
                    false
                }
            },
        }
    }
}

} // verus!
