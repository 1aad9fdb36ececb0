use single_button_game::flow::{
    failed_input, failed_level_text, failed_prompt, failure_state, finish_level, hud_text,
    level_complete_text, level_for_round, levels_completed_text, lives_text, menu_input,
    scoring_input, stats_input, testplay_escape_input, GameState, Score, MAX_LIVES,
};

fn fresh() -> Score {
    Score { round: 0, rounds_played: 0, lives: MAX_LIVES }
}

#[test]
fn default_score_is_a_fresh_run() {
    assert_eq!(Score::default(), fresh());
}

#[test]
fn menu_input_prefers_the_editor() {
    assert_eq!(menu_input(true, false), Some(GameState::Playing));
    assert_eq!(menu_input(false, true), Some(GameState::Editor));
    assert_eq!(menu_input(true, true), Some(GameState::Editor));
    assert_eq!(menu_input(false, false), None);
}

#[test]
fn third_collapse_ends_the_run() {
    let mut s = Score { round: 4, rounds_played: 4, lives: 3 };
    s.lose_life();
    assert_eq!(failed_input(&mut s, true), Some(GameState::Playing));
    assert_eq!(s.round, 4);
    s.lose_life();
    assert_eq!(failed_input(&mut s, true), Some(GameState::Playing));
    s.lose_life();
    assert_eq!(s.lives, 0);
    assert_eq!(failed_input(&mut s, true), Some(GameState::Menu));
    assert_eq!(s, fresh());
}

#[test]
fn lives_never_go_below_zero() {
    let mut s = Score { round: 0, rounds_played: 0, lives: 0 };
    s.lose_life();
    assert_eq!(s.lives, 0);
}

#[test]
fn failed_input_waits_for_a_press() {
    let mut s = Score { round: 2, rounds_played: 1, lives: 0 };
    assert_eq!(failed_input(&mut s, false), None);
    assert_eq!(s.round, 2);
}

#[test]
fn stats_input_resets_progress() {
    let mut s = Score { round: 6, rounds_played: 6, lives: 1 };
    assert_eq!(stats_input(&mut s, false), None);
    assert_eq!(s.round, 6);
    assert_eq!(stats_input(&mut s, true), Some(GameState::Menu));
    assert_eq!(s, fresh());
}

#[test]
fn finishing_levels_walks_the_sequence() {
    let mut s = fresh();
    assert_eq!(finish_level(&mut s, 3, false), GameState::Playing);
    assert_eq!(s.round, 1);
    assert_eq!(finish_level(&mut s, 3, false), GameState::Playing);
    assert_eq!(finish_level(&mut s, 3, false), GameState::Stats);
    assert_eq!(s.round, 3);
}

#[test]
fn test_play_returns_to_the_editor() {
    let mut s = fresh();
    assert_eq!(finish_level(&mut s, 3, true), GameState::Editor);
    assert_eq!(s.round, 0);
    assert_eq!(failure_state(true), GameState::Editor);
    assert_eq!(failure_state(false), GameState::Failed);
    assert_eq!(testplay_escape_input(true, true), Some(GameState::Editor));
    assert_eq!(testplay_escape_input(false, true), None);
    assert_eq!(testplay_escape_input(true, false), None);
}

#[test]
fn scoring_input_advances_on_space() {
    let mut s = Score { round: 0, rounds_played: 1, lives: 3 };
    assert_eq!(scoring_input(&mut s, false, 1), None);
    assert_eq!(s.round, 0);
    assert_eq!(scoring_input(&mut s, true, 1), Some(GameState::Stats));
    assert_eq!(s.round, 1);
}

#[test]
fn record_round_counts_levels() {
    let mut s = fresh();
    s.record_round();
    s.record_round();
    assert_eq!(s.rounds_played, 2);
    assert_eq!(levels_completed_text(s.rounds_played), "Levels Completed: 2");
}

#[test]
fn level_for_round_stops_at_the_end() {
    let entries = vec!["a.json".to_string(), "b.json".to_string()];
    assert_eq!(level_for_round(&entries, 1), Some("b.json".to_string()));
    assert_eq!(level_for_round(&entries, 2), None);
}

#[test]
fn failure_screen_texts() {
    assert_eq!(failed_level_text(0), "Failed on Level 1");
    assert_eq!(failed_level_text(11), "Failed on Level 12");
    assert_eq!(lives_text(2), "Lives remaining: 2");
    assert_eq!(failed_prompt(1), "Press SPACE or tap to retry");
    assert_eq!(failed_prompt(0), "Game Over!  Press SPACE or tap to return to menu");
}

#[test]
fn hud_text_with_and_without_name() {
    assert_eq!(hud_text(3, &None, 2, 5), "Level 3    Block: 2/5");
    assert_eq!(
        hud_text(10, &Some("Bridge".to_string()), 1, 4),
        "Level 10 - Bridge    Block: 1/4"
    );
}

#[test]
fn level_complete_text_marks_the_last_level() {
    assert_eq!(level_complete_text(2, &None, 6), "Level 2  Complete!");
    assert_eq!(
        level_complete_text(6, &Some("Arch".to_string()), 6),
        "Level 6 - Arch  Complete!  *"
    );
}
