use lgtm_game::game::{
    progress_label, AnswerButton, AnswerOutcome, GameState, DISAPPEAR_NANOS, FLICKER_NANOS,
};
use lgtm_game::problem::{generate_problem_pool, PAGE, PAGE_BAD_DISPLAY};

const MS: u64 = 1_000_000;

fn right(g: &GameState) -> AnswerButton {
    if g.current_problem.unwrap().is_correct {
        AnswerButton::Lgtm
    } else {
        AnswerButton::Hmm
    }
}

/// Answers the tutorial and reveals the given slot.
fn past_tutorial(slot: usize) -> GameState {
    let mut g = GameState::new();
    g.submit_answer(AnswerButton::Lgtm);
    g.reveal_next_problem(slot);
    g
}

#[test]
fn fresh_session_shows_tutorial() {
    let g = GameState::new();
    assert_eq!(g.current_index, 0);
    assert_eq!(g.correct_streak, 0);
    assert!(!g.is_waiting);
    assert_eq!(g.current_problem.unwrap().grade, "0");
    assert_eq!(g.screen.code_text, PAGE);
    assert_eq!(g.screen.progress_label, "Platform 0");
    assert!(!g.screen.blackout);
    assert!(!g.screen.clear_banner);
    assert!(g.disappear_timer.is_none());
    assert_eq!(g.problems.len(), 8);
}

#[test]
fn tutorial_reject_counts_as_correct() {
    let mut g = GameState::new();
    let r = g.submit_answer(AnswerButton::Hmm);
    assert_eq!(r, AnswerOutcome::Correct);
    assert_eq!(g.current_index, 1);
    assert_eq!(g.correct_streak, 0);
    assert!(g.is_waiting);
    assert!(g.screen.blackout);
    assert_eq!(g.screen.code_text, "");
    assert_eq!(g.screen.progress_label, "Platform 1/8");
}

#[test]
fn affirm_on_wrong_code_resets_to_slot_one() {
    let mut g = past_tutorial(3);
    assert_eq!(g.current_index, 1);
    assert!(!g.current_problem.unwrap().is_correct);
    let r = g.submit_answer(AnswerButton::Lgtm);
    assert_eq!(r, AnswerOutcome::Incorrect);
    assert_eq!(g.correct_streak, 0);
    assert_eq!(g.current_index, 1);
    assert_eq!(g.screen.progress_label, "Platform 1/8");
}

#[test]
fn eighth_right_answer_clears() {
    let mut g = past_tutorial(0);
    g.correct_streak = 7;
    g.current_index = 8;
    let r = g.submit_answer(AnswerButton::Lgtm);
    assert_eq!(r, AnswerOutcome::Cleared);
    assert_eq!(g.correct_streak, 0);
    assert_eq!(g.current_index, 0);
    assert!(g.screen.clear_banner);
    assert_eq!(g.screen.progress_label, "Platform");
}

#[test]
fn auto_hide_problem_clears_text_after_five_seconds() {
    let mut g = past_tutorial(7);
    assert_eq!(g.current_problem.unwrap().grade, "2-1");
    assert_eq!(g.screen.code_text, PAGE);
    let t = g.disappear_timer.unwrap();
    assert_eq!(t.duration_nanos, DISAPPEAR_NANOS);
    assert_eq!(t.elapsed_nanos, 0);
    assert!(!g.problem_disappear_system(4999 * MS));
    assert_eq!(g.screen.code_text, PAGE);
    assert!(g.problem_disappear_system(MS));
    assert_eq!(g.screen.code_text, "");
    assert!(!g.is_waiting);
    assert_eq!(g.current_index, 1);
    assert_eq!(g.correct_streak, 0);
    assert!(g.disappear_timer.is_none());
    assert!(!g.problem_disappear_system(10_000 * MS));
    assert_eq!(g.screen.code_text, "");
}

#[test]
fn right_answers_count_streak() {
    let mut g = past_tutorial(1);
    for n in 1..8usize {
        let b = right(&g);
        assert_eq!(g.submit_answer(b), AnswerOutcome::Correct);
        assert_eq!(g.correct_streak, n);
        assert_eq!(g.current_index, n + 1);
        assert_eq!(g.screen.progress_label, format!("Platform {}/8", n + 1));
        g.reveal_next_problem((n * 3) % 7);
    }
}

#[test]
fn clear_comes_once_per_eight() {
    let mut g = past_tutorial(2);
    let mut clears = 0;
    for i in 0..8usize {
        let b = right(&g);
        if g.submit_answer(b) == AnswerOutcome::Cleared {
            clears += 1;
        }
        g.reveal_next_problem(i % 3);
    }
    assert_eq!(clears, 1);
    assert_eq!(g.current_index, 1);
    assert_eq!(g.correct_streak, 0);
    assert_eq!(g.current_problem.unwrap().grade, "0");
}

#[test]
fn wrong_answer_late_in_streak_resets() {
    let mut g = past_tutorial(0);
    g.correct_streak = 4;
    g.current_index = 5;
    assert_eq!(g.submit_answer(AnswerButton::Hmm), AnswerOutcome::Incorrect);
    assert_eq!(g.correct_streak, 0);
    assert_eq!(g.current_index, 1);
}

#[test]
fn answers_while_waiting_are_dropped() {
    let mut g = past_tutorial(4);
    assert_eq!(g.submit_answer(AnswerButton::Hmm), AnswerOutcome::Correct);
    let (i, s) = (g.current_index, g.correct_streak);
    assert_eq!(g.submit_answer(AnswerButton::Lgtm), AnswerOutcome::Ignored);
    assert_eq!(g.submit_answer(AnswerButton::Hmm), AnswerOutcome::Ignored);
    assert_eq!((g.current_index, g.correct_streak), (i, s));
    assert!(g.is_waiting);
    assert_eq!(g.screen.progress_label, "Platform 2/8");
}

#[test]
fn waiting_lasts_until_flicker_ends() {
    let mut g = GameState::new();
    assert_eq!(g.next_problem_ready_system(FLICKER_NANOS), None);
    g.submit_answer(AnswerButton::Lgtm);
    assert_eq!(g.next_problem_ready_system(100 * MS), None);
    assert_eq!(g.next_problem_ready_system(199 * MS), None);
    assert!(g.is_waiting);
    assert!(g.screen.blackout);
    assert!(g.next_problem_ready_system(MS).is_some());
    assert!(!g.is_waiting);
    assert!(!g.screen.blackout);
    assert_eq!(g.current_index, 1);
    assert_eq!(g.flicker_timer.elapsed_nanos, 0);
    assert!(!g.flicker_timer.finished);
    assert_eq!(g.next_problem_ready_system(FLICKER_NANOS), None);
}

#[test]
fn drawn_slot_lies_in_pool_and_is_shown() {
    for _ in 0..50 {
        let mut g = past_tutorial(3);
        g.submit_answer(AnswerButton::Hmm);
        let d = g.next_problem_ready_system(FLICKER_NANOS).unwrap();
        assert!(d < g.problems.len());
        let p = g.current_problem.unwrap();
        assert_eq!(p.grade, g.problems[d].grade);
        assert_eq!(g.screen.code_text, p.code);
        assert_eq!(p.grade == "2-1", g.disappear_timer.is_some());
    }
}

#[test]
fn disappear_timer_armed_only_for_auto_hide() {
    let mut g = past_tutorial(7);
    assert!(g.disappear_timer.is_some());
    g.submit_answer(AnswerButton::Hmm);
    g.reveal_next_problem(5);
    assert!(g.disappear_timer.is_none());
    assert_eq!(g.screen.code_text, lgtm_game::problem::PAGE_BAD_COLOR);
    for slot in 0..7usize {
        let g = past_tutorial(slot);
        assert!(g.disappear_timer.is_none());
    }
}

#[test]
fn tutorial_after_clear_is_judged_normally() {
    let mut g = past_tutorial(0);
    g.correct_streak = 7;
    g.current_index = 8;
    g.submit_answer(AnswerButton::Lgtm);
    assert_eq!(g.next_problem_ready_system(FLICKER_NANOS), Some(0));
    assert_eq!(g.current_problem.unwrap().grade, "0");
    assert_eq!(g.current_index, 1);
    // Shown again after a clear, the tutorial problem is judged like any other.
    assert_eq!(g.submit_answer(AnswerButton::Hmm), AnswerOutcome::Incorrect);
    g.reveal_next_problem(0);
    assert_eq!(g.submit_answer(AnswerButton::Lgtm), AnswerOutcome::Correct);
    assert_eq!(g.current_index, 2);
    assert_eq!(g.correct_streak, 1);
    let mut fresh = GameState::new();
    assert_eq!(fresh.submit_answer(AnswerButton::Hmm), AnswerOutcome::Correct);
    assert_eq!(fresh.current_index, 1);
    assert_eq!(fresh.correct_streak, 0);
}

#[test]
fn progress_label_texts() {
    assert_eq!(progress_label(0, 0), "Platform");
    assert_eq!(progress_label(1, 0), "Platform 1/8");
    assert_eq!(progress_label(3, 2), "Platform 3/8");
    assert_eq!(progress_label(8, 7), "Platform 8/8");
}

#[test]
fn pool_holds_eight_problems() {
    let pool = generate_problem_pool();
    let grades: Vec<&str> = pool.iter().map(|p| p.grade).collect();
    assert_eq!(grades, vec!["0", "0-1", "0-2", "1-1", "1-2", "1-3", "1-4", "2-1"]);
    let right: Vec<bool> = pool.iter().map(|p| p.is_correct).collect();
    assert_eq!(right, vec![true, true, true, false, false, false, false, false]);
    assert_eq!(pool[3].code, PAGE_BAD_DISPLAY);
    assert!(pool[3].code.contains("display: yolo;"));
    assert!(pool[4].code.contains("100% better every day"));
    assert!(pool[5].code.contains("color: #o_o;"));
    assert_eq!(pool[7].code, PAGE);
    assert!(pool[7].is_auto_hide());
    assert!(!pool[6].is_auto_hide());
}
