use vstd::prelude::*;
use crate::score_bar::{spec_new_bar, spec_record, LevelScoreBar};

verus! {

/// Where a level is in its build: the next block to produce and which phase runs (waiting for
/// the tower to settle, showing the score pop-ups, showing the level-complete banner).
#[derive(Clone, Copy, Debug, PartialEq, Eq, Structural)]
pub struct BuildProgress {
    pub current_index: usize,
    pub waiting_for_settle: bool,
    pub showing_popups: bool,
    pub showing_level_complete: bool,
}

/// How a blueprint outline is highlighted.
#[derive(Clone, Copy, Debug, PartialEq, Eq, Structural)]
pub enum GhostStatus {
    /// Already built.
    Done,
    /// The block to build next.
    Next,
    /// Still to come.
    Pending,
}

/// The progress after a produced block is dropped: the next block is due, and once every
/// block of the blueprint is dropped the settle check starts.
pub open spec fn spec_block_dropped(p: BuildProgress, slot_count: nat) -> BuildProgress {
    let next = p.current_index + 1;
    BuildProgress {
        current_index: next as usize,
        waiting_for_settle: p.waiting_for_settle || next >= slot_count,
        ..p
    }
}

/// Whether a new block may be produced.
pub open spec fn spec_accepts(p: BuildProgress, slot_count: nat) -> bool {
    !p.waiting_for_settle && p.current_index < slot_count
}

/// The progress after `n` blocks were dropped one by one.
pub open spec fn drops(p: BuildProgress, slot_count: nat, n: nat) -> BuildProgress
    decreases n,
{
    if n == 0 {
        p
    } else {
        spec_block_dropped(drops(p, slot_count, (n - 1) as nat), slot_count)
    }
}

impl BuildProgress {
    /// The start of a level: the first block is due, no phase runs.
    pub fn new() -> (res: BuildProgress)
        ensures
            res == (BuildProgress {
                current_index: 0,
                waiting_for_settle: false,
                showing_popups: false,
                showing_level_complete: false,
            }),
    {
        BuildProgress {
            current_index: 0,
            waiting_for_settle: false,
            showing_popups: false,
            showing_level_complete: false,
        }
    }

    /// Whether the player may produce a block: not while the tower settles, and not once
    /// every block of the blueprint is placed.
    pub fn accepts_production(&self, slot_count: usize) -> (res: bool)
        ensures
            res == spec_accepts(*self, slot_count as nat),
    {
        !self.waiting_for_settle && self.current_index < slot_count
    }

    /// A produced block was dropped.
    pub fn block_dropped(&mut self, slot_count: usize)
        requires
            old(self).current_index < usize::MAX,
        ensures
            *final(self) == spec_block_dropped(*old(self), slot_count as nat),
    {
        self.current_index = self.current_index + 1;
        if self.current_index >= slot_count {
            self.waiting_for_settle = true;
        }
    }

    /// The tower settled and passed every check: the score pop-ups start.
    pub fn settled(&mut self)
        ensures
            *final(self) == (BuildProgress { waiting_for_settle: false, showing_popups: true, ..*old(self) }),
    {
        self.waiting_for_settle = false;
        self.showing_popups = true;
    }

    /// The pop-ups are done: the level-complete banner starts.
    pub fn popups_done(&mut self)
        ensures
            *final(self) == (BuildProgress { showing_popups: false, showing_level_complete: true, ..*old(self) }),
    {
        self.showing_popups = false;
        self.showing_level_complete = true;
    }

    /// The level-complete banner is done.
    pub fn banner_done(&mut self)
        ensures
            *final(self) == (BuildProgress { showing_level_complete: false, ..*old(self) }),
    {
        self.showing_level_complete = false;
    }

    /// The 1-based number of the block being built, never past the last block.
    pub fn hud_block_number(&self, slot_count: usize) -> (res: usize)
        requires
            self.current_index < usize::MAX,
        ensures
            res == (if self.current_index + 1 < slot_count { self.current_index + 1 } else { slot_count as int }),
    {
        let n = self.current_index + 1;
        if n < slot_count { n } else { slot_count }
    }

    /// How the outline of blueprint block `ghost` is highlighted.
    pub fn ghost_status(&self, ghost: usize) -> (res: GhostStatus)
        ensures
            res == (if ghost == self.current_index {
                GhostStatus::Next
            } else if ghost < self.current_index {
                GhostStatus::Done
            } else {
                GhostStatus::Pending
            }),
    {
        if ghost == self.current_index {
            GhostStatus::Next
        } else if ghost < self.current_index {
            GhostStatus::Done
        } else {
            GhostStatus::Pending
        }
    }

    /// Whether the `Evaluating...` indicator shows: while the tower settles, before the
    /// pop-ups.
    pub fn evaluating(&self) -> (res: bool)
        ensures
            res == (self.waiting_for_settle && !self.showing_popups),
    {
        self.waiting_for_settle && !self.showing_popups
    }
}

/// How long the whole tower must have had to settle before it is judged, in milliseconds.
pub const SETTLE_DELAY_MS: u32 = 1500;

/// How long every block must stay at rest, without a break, before the tower is judged.
pub const STABLE_WINDOW_MS: u32 = 500;

/// How long a single block must rest before its score pop-up shows.
pub const BLOCK_REST_MS: u32 = 400;

/// The clocks of the settle check: time since the last block was dropped, and how long every
/// block has been at rest without a break (milliseconds, saturating).
#[derive(Clone, Copy, Debug, PartialEq, Eq, Structural)]
pub struct SettleClock {
    pub settle_ms: u32,
    pub stability_ms: u32,
}

/// `a + b`, held at `u32::MAX`.
pub open spec fn sat_add(a: u32, b: u32) -> u32 {
    if a + b > u32::MAX { u32::MAX } else { (a + b) as u32 }
}

/// The clocks after `elapsed_ms`, and whether the tower is judged now. Nothing is looked at
/// before the settle delay; after it, any motion restarts the rest window, and the tower is
/// judged once it has rested for the whole window.
pub open spec fn spec_settle_step(c: SettleClock, elapsed_ms: u32, all_at_rest: bool) -> (SettleClock, bool) {
    let settle = sat_add(c.settle_ms, elapsed_ms);
    if settle < SETTLE_DELAY_MS {
        (SettleClock { settle_ms: settle, ..c }, false)
    } else if !all_at_rest {
        (SettleClock { settle_ms: settle, stability_ms: 0 }, false)
    } else {
        let stable = sat_add(c.stability_ms, elapsed_ms);
        (SettleClock { settle_ms: settle, stability_ms: stable }, stable >= STABLE_WINDOW_MS)
    }
}

impl SettleClock {
    /// The clocks when the last block was dropped.
    pub fn new() -> (res: SettleClock)
        ensures
            res == (SettleClock { settle_ms: 0, stability_ms: 0 }),
    {
        SettleClock { settle_ms: 0, stability_ms: 0 }
    }

    /// Advances the clocks by one frame of `elapsed_ms`; `all_at_rest` tells whether every
    /// block is asleep or nearly still this frame (it is not looked at during the settle
    /// delay). Returns whether the tower is judged now.
    pub fn step(&mut self, elapsed_ms: u32, all_at_rest: bool) -> (judge: bool)
        ensures
            (*final(self), judge) == spec_settle_step(*old(self), elapsed_ms, all_at_rest),
    {
        self.settle_ms = self.settle_ms.saturating_add(elapsed_ms);
        if self.settle_ms < SETTLE_DELAY_MS {
            return false;
        }
        if !all_at_rest {
            self.stability_ms = 0;
            return false;
        }
        self.stability_ms = self.stability_ms.saturating_add(elapsed_ms);
        self.stability_ms >= STABLE_WINDOW_MS
    }
}

/// The rest clock of one block and whether its score pop-up was shown.
#[derive(Clone, Copy, Debug, PartialEq, Eq, Structural)]
pub struct BlockRest {
    pub rest_ms: u32,
    pub popup_shown: bool,
}

/// The rest clock of a block after `elapsed_ms`, and whether its points are counted now. A
/// block whose pop-up was shown is left alone; otherwise any motion restarts the clock, and the
/// points count on the frame the rest first reaches `BLOCK_REST_MS`.
pub open spec fn spec_rest_step(r: BlockRest, elapsed_ms: u32, resting: bool) -> (BlockRest, bool) {
    if r.popup_shown {
        (r, false)
    } else {
        let ms = if resting { sat_add(r.rest_ms, elapsed_ms) } else { 0 };
        (BlockRest { rest_ms: ms, popup_shown: ms >= BLOCK_REST_MS }, ms >= BLOCK_REST_MS)
    }
}

/// The points of the blocks whose pop-up was shown: block `i` has rest clock `rests[i]` and
/// tier `tiers[i]`.
pub open spec fn shown_points(rests: Seq<BlockRest>, tiers: Seq<u8>) -> int
    decreases rests.len(),
{
    if rests.len() == 0 {
        0
    } else {
        shown_points(rests.drop_last(), tiers.drop_last())
            + if rests.last().popup_shown { tiers[rests.len() - 1] as int } else { 0 }
    }
}

/// One block's frame in the per-block settle check: its rest clock steps, and when it fires
/// the block's tier is counted on the bar.
pub open spec fn spec_block_frame(r: BlockRest, bar: LevelScoreBar, elapsed_ms: u32, resting: bool, tier: u8) -> (BlockRest, LevelScoreBar) {
    let (r2, fired) = spec_rest_step(r, elapsed_ms, resting);
    (r2, if fired { spec_record(bar, tier) } else { bar })
}

impl BlockRest {
    /// A freshly dropped block.
    pub fn new() -> (res: BlockRest)
        ensures
            res == (BlockRest { rest_ms: 0, popup_shown: false }),
    {
        BlockRest { rest_ms: 0, popup_shown: false }
    }

    /// Advances the block's rest clock by `elapsed_ms` (any motion restarts it). Returns
    /// `true` exactly once: on the frame its rest first reaches `BLOCK_REST_MS`, when its
    /// points are counted and its pop-up shown.
    pub fn step(&mut self, elapsed_ms: u32, resting: bool) -> (score_now: bool)
        ensures
            (*final(self), score_now) == spec_rest_step(*old(self), elapsed_ms, resting),
    {
        if self.popup_shown {
            return false;
        }
        if resting {
            self.rest_ms = self.rest_ms.saturating_add(elapsed_ms);
        } else {
            self.rest_ms = 0;
        }
        if self.rest_ms >= BLOCK_REST_MS {
            self.popup_shown = true;
            true
        } else {
            false
        }
    }
}

/// The tower is only judged after the settle delay and a full unbroken rest window, and one
/// frame of motion restarts the window.
pub proof fn law_judged_only_after_sustained_rest(c: SettleClock, elapsed_ms: u32, all_at_rest: bool)
    ensures
        spec_settle_step(c, elapsed_ms, all_at_rest).1 ==> all_at_rest
            && spec_settle_step(c, elapsed_ms, all_at_rest).0.settle_ms >= SETTLE_DELAY_MS
            && spec_settle_step(c, elapsed_ms, all_at_rest).0.stability_ms >= STABLE_WINDOW_MS,
        !all_at_rest ==> !spec_settle_step(c, elapsed_ms, all_at_rest).1
            && (spec_settle_step(c, elapsed_ms, all_at_rest).0.stability_ms == 0
                || spec_settle_step(c, elapsed_ms, all_at_rest).0.stability_ms == c.stability_ms),
{
}

proof fn lemma_shown_points_update(rests: Seq<BlockRest>, tiers: Seq<u8>, i: int, r: BlockRest)
    requires
        rests.len() == tiers.len(),
        0 <= i < rests.len(),
    ensures
        shown_points(rests.update(i, r), tiers) == shown_points(rests, tiers)
            - (if rests[i].popup_shown { tiers[i] as int } else { 0 })
            + (if r.popup_shown { tiers[i] as int } else { 0 }),
    decreases rests.len(),
{
    let u = rests.update(i, r);
    let n = rests.len() - 1;
    if i == n {
        assert(u.drop_last() =~= rests.drop_last());
    } else {
        assert(u.drop_last() =~= rests.drop_last().update(i, r));
        lemma_shown_points_update(rests.drop_last(), tiers.drop_last(), i, r);
    }
}

proof fn lemma_shown_points_bounds(rests: Seq<BlockRest>, tiers: Seq<u8>)
    requires
        rests.len() == tiers.len(),
        forall|i: int| 0 <= i < tiers.len() ==> tiers[i] <= 2,
    ensures
        0 <= shown_points(rests, tiers) <= 2 * rests.len(),
    decreases rests.len(),
{
    if rests.len() > 0 {
        let t = tiers.drop_last();
        assert forall|i: int| 0 <= i < t.len() implies t[i] <= 2 by {
            assert(t[i] == tiers[i]);
        }
        lemma_shown_points_bounds(rests.drop_last(), t);
    }
}

/// A level starts with no block counted: with every pop-up still to show, the shown points
/// are 0, which is what a fresh bar holds.
pub proof fn law_fresh_level_counts_nothing(rests: Seq<BlockRest>, tiers: Seq<u8>, num_slots: usize)
    requires
        rests.len() == tiers.len(),
        forall|i: int| 0 <= i < rests.len() ==> !rests[i].popup_shown,
    ensures
        shown_points(rests, tiers) == 0,
        spec_new_bar(num_slots).accumulated == shown_points(rests, tiers),
    decreases rests.len(),
{
    if rests.len() > 0 {
        let r = rests.drop_last();
        assert forall|i: int| 0 <= i < r.len() implies !r[i].popup_shown by {
            assert(r[i] == rests[i]);
        }
        law_fresh_level_counts_nothing(r, tiers.drop_last(), num_slots);
    }
}

/// Each block's points are counted exactly once: across any frames of a level, the bar holds
/// the tiers of exactly the blocks whose pop-up has shown. A frame of block `i` keeps this
/// (its tier is added only on the frame it first fires, never again), so the points always
/// lie between 0 and twice the number of blocks.
pub proof fn law_each_block_counted_once(
    rests: Seq<BlockRest>,
    tiers: Seq<u8>,
    bar: LevelScoreBar,
    i: int,
    elapsed_ms: u32,
    resting: bool,
)
    requires
        rests.len() == tiers.len(),
        0 <= i < rests.len(),
        forall|j: int| 0 <= j < tiers.len() ==> tiers[j] <= 2,
        2 * rests.len() <= i32::MAX,
        bar.accumulated == shown_points(rests, tiers),
    ensures
        ({
            let (r2, bar2) = spec_block_frame(rests[i], bar, elapsed_ms, resting, tiers[i]);
            &&& bar2.accumulated == shown_points(rests.update(i, r2), tiers)
            &&& 0 <= bar2.accumulated <= 2 * rests.len()
            &&& rests[i].popup_shown ==> r2 == rests[i] && bar2 == bar
            &&& r2.popup_shown != rests[i].popup_shown ==> bar2.accumulated == bar.accumulated + tiers[i]
        }),
{
    let (r2, fired) = spec_rest_step(rests[i], elapsed_ms, resting);
    lemma_shown_points_update(rests, tiers, i, r2);
    lemma_shown_points_bounds(rests.update(i, r2), tiers);
    lemma_shown_points_bounds(rests, tiers);
}

/// Whether heart `index` is drawn full: one full heart per life left.
pub fn heart_filled(index: usize, lives: usize) -> (res: bool)
    ensures
        res == (index < lives),
{
    index < lives
}

/// Dropping the blocks of a blueprint one by one, production stays open exactly until the
/// last block, and the settle check starts right after it: after `n` drops the next block is
/// number `n`, and the tower waits to settle exactly when `n` reached the block count.
pub proof fn law_build_walks_blueprint(slot_count: nat, n: nat)
    requires
        n <= slot_count,
        slot_count < usize::MAX,
    ensures
        ({
            let start = BuildProgress {
                current_index: 0,
                waiting_for_settle: false,
                showing_popups: false,
                showing_level_complete: false,
            };
            let p = drops(start, slot_count, n);
            &&& p.current_index == n
            &&& p.waiting_for_settle == (n == slot_count && n > 0)
            &&& spec_accepts(p, slot_count) == (n < slot_count)
        }),
    decreases n,
{
    if n > 0 {
        law_build_walks_blueprint(slot_count, (n - 1) as nat);
    }
}

/// A block's points count on a frame exactly when it has not counted yet and, resting this
/// frame, its rest has reached `BLOCK_REST_MS`; motion restarts the rest, and a counted block
/// never changes again.
pub proof fn law_block_counts_when_rested(r: BlockRest, elapsed_ms: u32, resting: bool)
    ensures
        spec_rest_step(r, elapsed_ms, resting).1 == (!r.popup_shown && resting
            && r.rest_ms + elapsed_ms >= BLOCK_REST_MS),
        !r.popup_shown && !resting ==> spec_rest_step(r, elapsed_ms, resting).0.rest_ms == 0,
        r.popup_shown ==> spec_rest_step(r, elapsed_ms, resting) == (r, false),
        spec_rest_step(r, elapsed_ms, resting).1 ==> spec_rest_step(r, elapsed_ms, resting).0.popup_shown,
{
}

} // verus!
