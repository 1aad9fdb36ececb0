use single_button_game::play::{heart_filled, BuildProgress, GhostStatus};
use single_button_game::score_bar::LevelScoreBar;

#[test]
fn new_bar_targets_one_point_per_block() {
    let b = LevelScoreBar::new(4);
    assert_eq!(b, LevelScoreBar { accumulated: 0, target: 4, threshold_reached: false, streak: 0 });
}

#[test]
fn all_yellow_blocks_exactly_pass() {
    let mut b = LevelScoreBar::new(3);
    for _ in 0..3 {
        b.record_block(1);
    }
    assert_eq!(b.accumulated, 3);
    assert!(b.meets_target());
}

#[test]
fn grey_blocks_need_greens_to_pass() {
    let mut b = LevelScoreBar::new(3);
    b.record_block(0);
    b.record_block(0);
    b.record_block(2);
    assert!(!b.meets_target());
    assert_eq!(b.low_score_message(), "Score too low (2/3 points)");
    assert_eq!(b.score_text(), "Score: 2/3");
}

#[test]
fn streak_counts_greens_in_a_row() {
    let mut b = LevelScoreBar::new(5);
    b.record_block(2);
    assert_eq!(b.streak_text(), "");
    b.record_block(2);
    assert_eq!(b.streak, 2);
    assert_eq!(b.streak_text(), "x2 STREAK");
    b.record_block(1);
    assert_eq!(b.streak, 0);
    b.record_block(2);
    b.record_block(2);
    b.record_block(2);
    assert_eq!(b.streak_text(), "x3 STREAK");
}

#[test]
fn threshold_celebrates_once() {
    let mut b = LevelScoreBar::new(2);
    b.record_block(1);
    assert!(!b.reach_threshold());
    b.record_block(2);
    assert!(b.reach_threshold());
    assert!(b.threshold_reached);
    b.record_block(2);
    assert!(!b.reach_threshold());
    assert!(b.threshold_reached);
}

#[test]
fn empty_level_meets_its_zero_target() {
    let mut b = LevelScoreBar::new(0);
    assert!(b.meets_target());
    assert!(b.reach_threshold());
}

#[test]
fn negative_score_text() {
    let b = LevelScoreBar { accumulated: -3, target: 2, threshold_reached: false, streak: 0 };
    assert_eq!(b.score_text(), "Score: -3/2");
}

#[test]
fn build_walks_the_blueprint() {
    let mut p = BuildProgress::new();
    assert!(p.accepts_production(2));
    assert_eq!(p.hud_block_number(2), 1);
    p.block_dropped(2);
    assert!(!p.waiting_for_settle);
    assert_eq!(p.hud_block_number(2), 2);
    assert_eq!(p.ghost_status(0), GhostStatus::Done);
    assert_eq!(p.ghost_status(1), GhostStatus::Next);
    p.block_dropped(2);
    assert!(p.waiting_for_settle);
    assert!(!p.accepts_production(2));
    assert_eq!(p.hud_block_number(2), 2);
    assert!(p.evaluating());
    p.settled();
    assert!(p.showing_popups && !p.waiting_for_settle);
    assert!(!p.evaluating());
    p.popups_done();
    assert!(p.showing_level_complete && !p.showing_popups);
    p.banner_done();
    assert!(!p.showing_level_complete);
}

#[test]
fn ghosts_ahead_are_pending() {
    let p = BuildProgress::new();
    assert_eq!(p.ghost_status(0), GhostStatus::Next);
    assert_eq!(p.ghost_status(3), GhostStatus::Pending);
}

#[test]
fn hearts_show_lives() {
    assert!(heart_filled(0, 1));
    assert!(!heart_filled(1, 1));
    assert!(!heart_filled(0, 0));
}

use single_button_game::play::{BlockRest, SettleClock};
use single_button_game::sequence::{rebuild_plan, RowPlan};

#[test]
fn settle_waits_then_needs_sustained_rest() {
    let mut c = SettleClock::new();
    assert!(!c.step(1000, true));
    assert_eq!(c.stability_ms, 0);
    assert!(!c.step(400, true));
    assert_eq!(c.stability_ms, 0);
    assert!(!c.step(200, true));
    assert_eq!(c.stability_ms, 200);
    assert!(c.step(300, true));
    let mut c = SettleClock::new();
    assert!(c.step(1500, true));
    assert_eq!(c.stability_ms, 1500);
    let mut c = SettleClock { settle_ms: 2000, stability_ms: 400 };
    assert!(!c.step(16, false));
    assert_eq!(c.stability_ms, 0);
    assert!(!c.step(400, true));
    assert!(c.step(100, true));
}

#[test]
fn settle_clock_saturates() {
    let mut c = SettleClock { settle_ms: u32::MAX - 1, stability_ms: u32::MAX };
    assert!(c.step(10, true));
    assert_eq!(c, SettleClock { settle_ms: u32::MAX, stability_ms: u32::MAX });
}

#[test]
fn block_scores_once_after_resting() {
    let mut r = BlockRest::new();
    assert!(!r.step(300, true));
    assert!(!r.step(50, false));
    assert_eq!(r.rest_ms, 0);
    assert!(!r.step(399, true));
    assert!(r.step(1, true));
    assert!(r.popup_shown);
    assert!(!r.step(1000, true));
}

#[test]
fn row_plans() {
    assert_eq!(rebuild_plan(2, 5), RowPlan::Spawn { from: 2, to: 5 });
    assert_eq!(rebuild_plan(5, 2), RowPlan::Respawn { count: 2 });
    assert_eq!(rebuild_plan(3, 3), RowPlan::Keep);
}

#[test]
fn points_never_exceed_two_per_block() {
    let mut b = LevelScoreBar::new(3);
    b.record_block(2);
    b.record_block(2);
    b.record_block(2);
    assert_eq!(b.accumulated, 6);
    assert!(b.accumulated <= 2 * b.target);
}

#[test]
fn each_block_counts_once_across_frames() {
    let tiers = [2u8, 1u8];
    let mut rests = [BlockRest::new(), BlockRest::new()];
    let mut bar = LevelScoreBar::new(2);
    for frame in 0..20 {
        for i in 0..2 {
            let resting = !(i == 1 && frame < 5);
            if rests[i].step(100, resting) {
                bar.record_block(tiers[i]);
            }
        }
    }
    assert!(rests.iter().all(|r| r.popup_shown));
    assert_eq!(bar.accumulated, 3);
    assert!(bar.accumulated <= 2 * 2);
}
