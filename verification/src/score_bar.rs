use vstd::prelude::*;
use crate::text::{signed_decimal, i32_text, text_of, decimal, u32_text};

verus! {

/// The per-level score bar: tier points collected from settled blocks (grey 0, yellow 1,
/// green 2) against a target of one point per block, plus the current run of green blocks.
#[derive(Clone, Copy, Debug, PartialEq, Eq, Structural)]
pub struct LevelScoreBar {
    pub accumulated: i32,
    pub target: i32,
    pub threshold_reached: bool,
    pub streak: u32,
}

/// The bar after a settled block of tier `tier` was counted.
pub open spec fn spec_record(b: LevelScoreBar, tier: u8) -> LevelScoreBar {
    LevelScoreBar {
        accumulated: (b.accumulated + tier) as i32,
        streak: if tier == 2 { (b.streak + 1) as u32 } else { 0 },
        ..b
    }
}

/// The bar after the blocks of tiers `tiers` were counted, in order.
pub open spec fn record_all(b: LevelScoreBar, tiers: Seq<u8>) -> LevelScoreBar
    decreases tiers.len(),
{
    if tiers.len() == 0 {
        b
    } else {
        spec_record(record_all(b, tiers.drop_last()), tiers.last())
    }
}

/// The total of a list of tier points.
pub open spec fn tier_sum(tiers: Seq<u8>) -> int
    decreases tiers.len(),
{
    if tiers.len() == 0 {
        0
    } else {
        tier_sum(tiers.drop_last()) + tiers.last()
    }
}

/// How many green (tier 2) blocks end the list.
pub open spec fn trailing_greens(tiers: Seq<u8>) -> nat
    decreases tiers.len(),
{
    if tiers.len() == 0 {
        0
    } else if tiers.last() == 2 {
        trailing_greens(tiers.drop_last()) + 1
    } else {
        0
    }
}

/// The bar at the start of a level with `num_slots` blocks.
pub open spec fn spec_new_bar(num_slots: usize) -> LevelScoreBar {
    LevelScoreBar { accumulated: 0, target: num_slots as i32, threshold_reached: false, streak: 0 }
}

/// The bar after the threshold check, and whether the target was reached just now.
pub open spec fn spec_reach(b: LevelScoreBar) -> (LevelScoreBar, bool) {
    if !b.threshold_reached && b.accumulated >= b.target {
        (LevelScoreBar { threshold_reached: true, ..b }, true)
    } else {
        (b, false)
    }
}

impl LevelScoreBar {
    /// The bar at the start of a level with `num_slots` blocks: nothing collected, target
    /// `num_slots` (converted with `as i32`).
    pub fn new(num_slots: usize) -> (res: LevelScoreBar)
        ensures
            res == spec_new_bar(num_slots),
    {
        LevelScoreBar { accumulated: 0, target: num_slots as i32, threshold_reached: false, streak: 0 }
    }

    /// Counts a settled block of tier `tier` (0 grey, 1 yellow, 2 green): its points are added
    /// and the green streak grows on a green block and restarts otherwise.
    pub fn record_block(&mut self, tier: u8)
        requires
            tier <= 2,
            old(self).accumulated + tier <= i32::MAX,
            tier == 2 ==> old(self).streak < u32::MAX,
        ensures
            *final(self) == spec_record(*old(self), tier),
    {
        self.accumulated = self.accumulated + tier as i32;
        if tier == 2 {
            self.streak = self.streak + 1;
        } else {
            self.streak = 0;
        }
    }

    /// Marks the target as reached the first time the points meet it; returns `true` only on
    /// that first time (when the celebration burst is shown).
    pub fn reach_threshold(&mut self) -> (first: bool)
        ensures
            (*final(self), first) == spec_reach(*old(self)),
    {
        if !self.threshold_reached && self.accumulated >= self.target {
            self.threshold_reached = true;
            true
        } else {
            false
        }
    }

    /// `true` when the collected points meet the target (otherwise the level fails).
    pub fn meets_target(&self) -> (res: bool)
        ensures
            res == (self.accumulated >= self.target),
    {
        self.accumulated >= self.target
    }

    /// `Score: {accumulated}/{target}`.
    pub fn score_text(&self) -> (res: String)
        ensures
            res@ == "Score: "@ + signed_decimal(self.accumulated as int) + "/"@
                + signed_decimal(self.target as int),
    {
        let mut s = text_of("Score: ");
        let a = i32_text(self.accumulated);
        s.append(a.as_str());
        s.append("/");
        let t = i32_text(self.target);
        s.append(t.as_str());
        s
    }

    /// The failure message when the points fall short:
    /// `Score too low ({accumulated}/{target} points)`.
    pub fn low_score_message(&self) -> (res: String)
        ensures
            res@ == "Score too low ("@ + signed_decimal(self.accumulated as int) + "/"@
                + signed_decimal(self.target as int) + " points)"@,
    {
        let mut s = text_of("Score too low (");
        let a = i32_text(self.accumulated);
        s.append(a.as_str());
        s.append("/");
        let t = i32_text(self.target);
        s.append(t.as_str());
        s.append(" points)");
        s
    }

    /// `x{n} STREAK` from two green blocks in a row on; empty otherwise.
    pub fn streak_text(&self) -> (res: String)
        ensures
            self.streak >= 2 ==> res@ == "x"@ + decimal(self.streak as nat) + " STREAK"@,
            self.streak < 2 ==> res@.len() == 0,
    {
        if self.streak >= 2 {
            let mut s = text_of("x");
            let n = u32_text(self.streak);
            s.append(n.as_str());
            s.append(" STREAK");
            s
        } else {
            String::new()
        }
    }
}

/// The collected points are the sum of the counted tiers, and the streak is the run of green
/// blocks at the end (continuing the bar's earlier streak when every counted block is green).
pub proof fn law_bar_totals(b: LevelScoreBar, tiers: Seq<u8>)
    requires
        b.accumulated >= 0,
        b.accumulated + tier_sum(tiers) <= i32::MAX,
        b.streak + tiers.len() <= u32::MAX,
    ensures
        record_all(b, tiers).accumulated == b.accumulated + tier_sum(tiers),
        record_all(b, tiers).streak == (if trailing_greens(tiers) == tiers.len() {
            b.streak + tiers.len()
        } else {
            trailing_greens(tiers) as int
        }),
        record_all(b, tiers).target == b.target,
        record_all(b, tiers).threshold_reached == b.threshold_reached,
    decreases tiers.len(),
{
    if tiers.len() > 0 {
        let rest = tiers.drop_last();
        assert(tier_sum(rest) <= tier_sum(tiers));
        lemma_tier_sum_nonneg(rest);
        law_bar_totals(b, rest);
        lemma_trailing_bound(rest);
    }
}

proof fn lemma_tier_sum_nonneg(tiers: Seq<u8>)
    ensures
        tier_sum(tiers) >= 0,
    decreases tiers.len(),
{
    if tiers.len() > 0 {
        lemma_tier_sum_nonneg(tiers.drop_last());
    }
}

proof fn lemma_trailing_bound(tiers: Seq<u8>)
    ensures
        trailing_greens(tiers) <= tiers.len(),
    decreases tiers.len(),
{
    if tiers.len() > 0 {
        lemma_trailing_bound(tiers.drop_last());
    }
}

/// A level passes the score check exactly when its blocks earned at least one point per block
/// (for example all yellow), whatever the order of the tiers.
pub proof fn law_level_passes_iff_points_cover_blocks(num_slots: usize, tiers: Seq<u8>)
    requires
        num_slots <= i32::MAX,
        tier_sum(tiers) <= i32::MAX,
        tiers.len() <= u32::MAX,
    ensures
        (record_all(spec_new_bar(num_slots), tiers).accumulated
            >= record_all(spec_new_bar(num_slots), tiers).target) <==> tier_sum(tiers) >= num_slots,
{
    law_bar_totals(spec_new_bar(num_slots), tiers);
}

/// Every block is worth at most two points: after the blocks of tiers `tiers` were counted on
/// a fresh bar, the collected points lie between 0 and twice the number of counted blocks,
/// so a level of `num_slots` blocks never collects more than `2 * num_slots`.
pub proof fn law_points_at_most_two_per_block(num_slots: usize, tiers: Seq<u8>)
    requires
        forall|i: int| 0 <= i < tiers.len() ==> tiers[i] <= 2,
        tiers.len() <= num_slots,
        2 * num_slots <= i32::MAX,
    ensures
        0 <= record_all(spec_new_bar(num_slots), tiers).accumulated <= 2 * tiers.len(),
        record_all(spec_new_bar(num_slots), tiers).accumulated <= 2 * num_slots,
{
    lemma_tier_sum_bounds(tiers);
    law_bar_totals(spec_new_bar(num_slots), tiers);
}

proof fn lemma_tier_sum_bounds(tiers: Seq<u8>)
    requires
        forall|i: int| 0 <= i < tiers.len() ==> tiers[i] <= 2,
    ensures
        0 <= tier_sum(tiers) <= 2 * tiers.len(),
    decreases tiers.len(),
{
    if tiers.len() > 0 {
        let rest = tiers.drop_last();
        assert forall|i: int| 0 <= i < rest.len() implies rest[i] <= 2 by {
            assert(rest[i] == tiers[i]);
        }
        lemma_tier_sum_bounds(rest);
        assert(tiers.last() == tiers[tiers.len() - 1]);
    }
}

/// The celebration fires at most once per level: when the check fires the target is marked
/// reached, and from then on, whatever blocks are counted, the target stays reached and the
/// check never fires again.
pub proof fn law_threshold_fires_once(b: LevelScoreBar, tiers: Seq<u8>)
    ensures
        spec_reach(b).1 ==> spec_reach(b).0.threshold_reached,
        spec_reach(b).0.threshold_reached ==> record_all(spec_reach(b).0, tiers).threshold_reached,
        spec_reach(b).0.threshold_reached ==> !spec_reach(record_all(spec_reach(b).0, tiers)).1,
    decreases tiers.len(),
{
    if tiers.len() > 0 {
        law_threshold_fires_once(b, tiers.drop_last());
    }
}

/// The threshold check fires exactly when the target is not yet marked reached and the
/// collected points meet it (for example a level whose blocks all landed yellow); firing marks
/// the target reached and changes nothing else, and otherwise the bar is left as it was.
pub proof fn law_threshold_fires_when_points_meet_target(b: LevelScoreBar)
    ensures
        spec_reach(b).1 == (!b.threshold_reached && b.accumulated >= b.target),
        spec_reach(b).1 ==> spec_reach(b).0 == (LevelScoreBar { threshold_reached: true, ..b }),
        !spec_reach(b).1 ==> spec_reach(b).0 == b,
        spec_reach(b).0.threshold_reached == (b.threshold_reached || b.accumulated >= b.target),
{
}

} // verus!
