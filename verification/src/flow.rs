use vstd::prelude::*;
use crate::levels::views;
use crate::text::{decimal, text_of, usize_text};

verus! {

/// The screens of the game.
#[derive(Clone, Copy, Debug, PartialEq, Eq, Structural)]
pub enum GameState {
    Menu,
    Playing,
    Failed,
    Stats,
    Editor,
}

/// Lives at the start of a run.
pub const MAX_LIVES: usize = 3;

/// Progress through a run: the level being played, how many levels were completed, and the
/// lives left.
#[derive(Clone, Copy, Debug, PartialEq, Eq, Structural)]
pub struct Score {
    pub round: usize,
    pub rounds_played: usize,
    pub lives: usize,
}

/// The progress of a fresh run.
pub open spec fn fresh_score() -> Score {
    Score { round: 0, rounds_played: 0, lives: MAX_LIVES }
}

impl Default for Score {
    fn default() -> (res: Score)
        ensures
            res == fresh_score(),
    {
        Score { round: 0, rounds_played: 0, lives: MAX_LIVES }
    }
}

/// A run never holds more lives than it starts with.
pub open spec fn lives_bounded(s: Score) -> bool {
    s.lives <= MAX_LIVES
}

/// The failure screen: one life is lost, never going below zero.
pub open spec fn spec_lose_life(s: Score) -> Score {
    Score { lives: if s.lives > 0 { (s.lives - 1) as usize } else { 0 }, ..s }
}

/// The input on the failure screen: with lives left the same level is retried; otherwise the
/// run is over, progress is reset and the menu is shown.
pub open spec fn spec_failed_input(s: Score, pressed: bool) -> (Score, Option<GameState>) {
    if !pressed {
        (s, None)
    } else if s.lives > 0 {
        (s, Some(GameState::Playing))
    } else {
        (fresh_score(), Some(GameState::Menu))
    }
}

/// A completed level: the next one is played, or the statistics are shown after the last.
/// A test play started from the editor returns to the editor and leaves the progress as is.
pub open spec fn spec_finish_level(s: Score, level_count: nat, testplay: bool) -> (Score, GameState) {
    if testplay {
        (s, GameState::Editor)
    } else {
        let next = s.round + 1;
        (
            Score { round: next as usize, ..s },
            if next >= level_count { GameState::Stats } else { GameState::Playing },
        )
    }
}

impl Score {
    /// Takes one life when a structure collapses (at zero lives stays at zero).
    pub fn lose_life(&mut self)
        ensures
            *final(self) == spec_lose_life(*old(self)),
    {
        self.lives = self.lives.saturating_sub(1);
    }

    /// Counts one more completed level.
    pub fn record_round(&mut self)
        requires
            old(self).rounds_played < usize::MAX,
        ensures
            *final(self) == (Score { rounds_played: (old(self).rounds_played + 1) as usize, ..*old(self) }),
    {
        self.rounds_played = self.rounds_played + 1;
    }
}

/// The title screen: Space or a tap starts playing, E opens the editor; when both come in
/// the same frame the editor wins.
pub fn menu_input(start: bool, editor: bool) -> (res: Option<GameState>)
    ensures
        res == (if editor { Some(GameState::Editor) } else if start { Some(GameState::Playing) } else { None }),
{
    if editor {
        Some(GameState::Editor)
    } else if start {
        Some(GameState::Playing)
    } else {
        None
    }
}

/// The failure screen's input (`pressed`: Space or a tap this frame).
pub fn failed_input(score: &mut Score, pressed: bool) -> (res: Option<GameState>)
    ensures
        (*final(score), res) == spec_failed_input(*old(score), pressed),
{
    if pressed {
        if score.lives > 0 {
            Some(GameState::Playing)
        } else {
            *score = Score::default();
            Some(GameState::Menu)
        }
    } else {
        None
    }
}

/// The statistics screen: Space starts over from the menu with fresh progress.
pub fn stats_input(score: &mut Score, pressed: bool) -> (res: Option<GameState>)
    ensures
        pressed ==> *final(score) == fresh_score() && res == Some(GameState::Menu),
        !pressed ==> *final(score) == *old(score) && res is None,
{
    if pressed {
        *score = Score::default();
        Some(GameState::Menu)
    } else {
        None
    }
}

/// The end of the level-complete overlay.
pub fn finish_level(score: &mut Score, level_count: usize, testplay: bool) -> (res: GameState)
    requires
        !testplay ==> old(score).round < usize::MAX,
    ensures
        (*final(score), res) == spec_finish_level(*old(score), level_count as nat, testplay),
{
    if testplay {
        GameState::Editor
    } else {
        let next = score.round + 1;
        score.round = next;
        if next >= level_count {
            GameState::Stats
        } else {
            GameState::Playing
        }
    }
}

/// The score screen's input: Space moves on to the next level (or the statistics).
pub fn scoring_input(score: &mut Score, pressed: bool, level_count: usize) -> (res: Option<GameState>)
    requires
        old(score).round < usize::MAX,
    ensures
        pressed ==> (*final(score), res->0) == spec_finish_level(*old(score), level_count as nat, false)
            && res is Some,
        !pressed ==> *final(score) == *old(score) && res is None,
{
    if pressed {
        Some(finish_level(score, level_count, false))
    } else {
        None
    }
}

/// Where a failed structure leads: back to the editor during a test play, else the failure
/// screen.
pub fn failure_state(testplay: bool) -> (res: GameState)
    ensures
        res == (if testplay { GameState::Editor } else { GameState::Failed }),
{
    if testplay {
        GameState::Editor
    } else {
        GameState::Failed
    }
}

/// During a test play, Escape returns to the editor.
pub fn testplay_escape_input(testplay: bool, escape: bool) -> (res: Option<GameState>)
    ensures
        res == (if testplay && escape { Some(GameState::Editor) } else { None }),
{
    if testplay && escape {
        Some(GameState::Editor)
    } else {
        None
    }
}

/// The level file of the round being played, or `None` past the end of the sequence (then
/// the game returns to the menu).
pub fn level_for_round(entries: &Vec<String>, round: usize) -> (res: Option<String>)
    ensures
        round < entries@.len() ==> res is Some && res->0@ == entries@[round as int]@,
        round >= entries@.len() ==> res is None,
{
    if round < entries.len() {
        Some(entries[round].clone())
    } else {
        None
    }
}

/// `Failed on Level {n}` with the 1-based level number.
pub fn failed_level_text(round: usize) -> (res: String)
    requires
        round < usize::MAX,
    ensures
        res@ == "Failed on Level "@ + decimal(round as nat + 1),
{
    let mut s = text_of("Failed on Level ");
    let n = usize_text(round + 1);
    s.append(n.as_str());
    s
}

/// `Lives remaining: {lives}`.
pub fn lives_text(lives: usize) -> (res: String)
    ensures
        res@ == "Lives remaining: "@ + decimal(lives as nat),
{
    let mut s = text_of("Lives remaining: ");
    let n = usize_text(lives);
    s.append(n.as_str());
    s
}

/// The prompt on the failure screen: retry while lives are left, else game over.
pub fn failed_prompt(lives: usize) -> (res: &'static str)
    ensures
        lives > 0 ==> res@ == "Press SPACE or tap to retry"@,
        lives == 0 ==> res@ == "Game Over!  Press SPACE or tap to return to menu"@,
{
    if lives > 0 {
        "Press SPACE or tap to retry"
    } else {
        "Game Over!  Press SPACE or tap to return to menu"
    }
}

/// `Levels Completed: {n}` on the statistics screen.
pub fn levels_completed_text(rounds_played: usize) -> (res: String)
    ensures
        res@ == "Levels Completed: "@ + decimal(rounds_played as nat),
{
    let mut s = text_of("Levels Completed: ");
    let n = usize_text(rounds_played);
    s.append(n.as_str());
    s
}

/// ` - {name}` when the level has a name, nothing otherwise.
pub open spec fn name_part(level_name: Option<Seq<char>>) -> Seq<char> {
    match level_name {
        Some(name) => " - "@ + name,
        None => Seq::empty(),
    }
}

/// The view of an optional string.
pub open spec fn opt_view(s: Option<String>) -> Option<Seq<char>> {
    match s {
        Some(t) => Some(t@),
        None => None,
    }
}

/// The in-game heads-up line: `Level {n}[ - {name}]    Block: {block}/{total}`.
pub fn hud_text(level_num: usize, level_name: &Option<String>, block: usize, total: usize) -> (res: String)
    ensures
        res@ == "Level "@ + decimal(level_num as nat) + name_part(opt_view(*level_name))
            + "    Block: "@ + decimal(block as nat) + "/"@ + decimal(total as nat),
{
    let mut s = text_of("Level ");
    let n = usize_text(level_num);
    s.append(n.as_str());
    match level_name {
        Some(name) => {
            s.append(" - ");
            s.append(name.as_str());
        },
        None => {},
    }
    s.append("    Block: ");
    let b = usize_text(block);
    s.append(b.as_str());
    s.append("/");
    let t = usize_text(total);
    s.append(t.as_str());
    proof {
        let base = "Level "@ + decimal(level_num as nat);
        match level_name {
            Some(name) => {
                assert(base + " - "@ + name@ =~= base + name_part(opt_view(*level_name)));
            },
            None => {
                assert(base =~= base + name_part(opt_view(*level_name)));
            },
        }
    }
    s
}

/// The banner at the end of a level: `Level {n}[ - {name}]  Complete!`, with `  *` added on
/// the last level of the sequence.
pub fn level_complete_text(level_num: usize, level_name: &Option<String>, level_count: usize) -> (res: String)
    ensures
        res@ == "Level "@ + decimal(level_num as nat) + name_part(opt_view(*level_name))
            + "  Complete!"@ + (if level_num >= level_count { "  *"@ } else { Seq::empty() }),
{
    let mut s = text_of("Level ");
    let n = usize_text(level_num);
    s.append(n.as_str());
    match level_name {
        Some(name) => {
            s.append(" - ");
            s.append(name.as_str());
        },
        None => {},
    }
    s.append("  Complete!");
    let ghost before = s@;
    if level_num >= level_count {
        s.append("  *");
    } else {
        assert(s@ =~= before + Seq::<char>::empty());
    }
    proof {
        let base = "Level "@ + decimal(level_num as nat);
        match level_name {
            Some(name) => {
                assert(base + " - "@ + name@ =~= base + name_part(opt_view(*level_name)));
            },
            None => {
                assert(base =~= base + name_part(opt_view(*level_name)));
            },
        }
    }
    s
}

/// Every transition keeps the lives of a run within the starting count.
pub proof fn law_lives_never_exceed_start(s: Score, pressed: bool, level_count: nat, testplay: bool)
    requires
        lives_bounded(s),
    ensures
        lives_bounded(spec_lose_life(s)),
        lives_bounded(spec_failed_input(s, pressed).0),
        lives_bounded(spec_finish_level(s, level_count, testplay).0),
        lives_bounded(fresh_score()),
{
}

/// Retrying after a collapse keeps the level being played.
pub proof fn law_retry_keeps_level(s: Score)
    requires
        s.lives > 1,
    ensures
        spec_failed_input(spec_lose_life(s), true) == (spec_lose_life(s), Some(GameState::Playing)),
        spec_lose_life(s).round == s.round,
{
}

/// A fresh run survives exactly two collapses: the third one ends the run, resets the
/// progress and returns to the menu.
pub proof fn law_third_collapse_ends_run(s: Score)
    requires
        s == fresh_score(),
    ensures
        ({
            let a = spec_lose_life(s);
            let b = spec_lose_life(a);
            let c = spec_lose_life(b);
            &&& spec_failed_input(a, true).1 == Some(GameState::Playing)
            &&& spec_failed_input(b, true).1 == Some(GameState::Playing)
            &&& spec_failed_input(c, true) == (fresh_score(), Some(GameState::Menu))
        }),
{
}

/// Completing levels one after another walks the sequence in order and ends on the
/// statistics screen after the last one.
pub proof fn law_levels_played_in_order(s: Score, level_count: nat)
    requires
        s.round < level_count,
        s.round < usize::MAX,
    ensures
        spec_finish_level(s, level_count, false).0.round == s.round + 1,
        s.round + 1 < level_count ==> spec_finish_level(s, level_count, false).1 == GameState::Playing,
        s.round + 1 == level_count ==> spec_finish_level(s, level_count, false).1 == GameState::Stats,
{
}

/// The failure screen waits for a press: without one nothing changes. A press retries the
/// same level while lives are left, and otherwise ends the run with fresh progress on the
/// menu.
pub proof fn law_failed_screen_waits_for_press(s: Score)
    ensures
        spec_failed_input(s, false) == (s, Option::<GameState>::None),
        s.lives > 0 ==> spec_failed_input(s, true) == (s, Some(GameState::Playing)),
        s.lives == 0 ==> spec_failed_input(s, true) == (fresh_score(), Some(GameState::Menu)),
{
}

} // verus!
