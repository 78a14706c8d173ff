//! Per-round configuration: hit-window thresholds, score deltas, the round
//! length, and the geometry the round is (re)created with.

use vstd::prelude::*;

verus! {

/// Largest magnitude allowed for coordinates, widths and per-tick travel.
/// Keeping every configured length within this bound keeps all position
/// arithmetic far away from `i64` overflow.
pub const COORD_LIMIT: i64 = 1_000_000_000;

/// The constants a round is played with, resolved once at round start.
///
/// Historical variants of the game disagreed on the penalty for a badly timed
/// hit (one to three points) and on the clear rule; this library fixes the
/// rule set as: `bad_penalty` points are subtracted, floored at zero, and a
/// final score of at least `clear_threshold` wins the round. The standard
/// configuration uses a penalty of one point and a threshold of ten.
#[derive(Clone, Copy, Debug)]
pub struct GameConfig {
    /// Distances strictly below `t1` classify as a perfect hit.
    pub t1: u64,
    /// Distances in `t1 ..< t2` classify as a good hit.
    pub t2: u64,
    /// Distances in `t2 ..< t3` classify as an ok hit; `t3` and beyond are bad.
    pub t3: u64,
    /// Points awarded for a perfect hit.
    pub perfect_points: u64,
    /// Points awarded for a good hit.
    pub good_points: u64,
    /// Points awarded for an ok hit.
    pub ok_points: u64,
    /// Points subtracted for a bad hit, floored at zero.
    pub bad_penalty: u64,
    /// A round ends won when the final score reaches this value.
    pub clear_threshold: u64,
    /// Round length in time units; the round timer counts down from it.
    pub time_limit: u64,
    /// Horizontal center of the bar, the origin of distance measurement.
    pub bar_center_x: i64,
    /// Half the width of the bar; the cue reverses beyond `center ± half_width`.
    pub bar_half_width: i64,
    /// Where the cue is (re)spawned when a round starts.
    pub cue_start_x: i64,
    /// Initial direction of the cue.
    pub cue_start_moving_right: bool,
    /// Distance the cue travels in one tick.
    pub cue_speed: i64,
}

impl GameConfig {
    /// A configuration the session can run on: ascending hit windows,
    /// positive rewards, a positive round length, and geometry that keeps the
    /// cue's arithmetic within `COORD_LIMIT` with the cue starting on the bar.
    pub open spec fn wf(self) -> bool {
        &&& 0 < self.t1 < self.t2 < self.t3
        &&& self.perfect_points > 0
        &&& self.good_points > 0
        &&& self.ok_points > 0
        &&& self.bad_penalty > 0
        &&& self.time_limit > 0
        &&& -COORD_LIMIT <= self.bar_center_x <= COORD_LIMIT
        &&& 0 < self.bar_half_width <= COORD_LIMIT
        &&& 0 < self.cue_speed <= COORD_LIMIT
        &&& self.bar_center_x - self.bar_half_width <= self.cue_start_x
        &&& self.cue_start_x <= self.bar_center_x + self.bar_half_width
    }

    /// The configuration of the shipped game: grid-unit windows of 16, 32 and
    /// 64 length units, rewards of 3/2/1 points, a one-point penalty, a ten
    /// point clear threshold, a ten second (10 000 ms) round, a bar of half
    /// width 256 centered at x = 320, and a cue starting at x = 336 moving
    /// left at 7 length units per tick.
    pub fn standard() -> (cfg: GameConfig)
        ensures
            cfg.wf(),
            cfg.t1 == 16,
            cfg.t2 == 32,
            cfg.t3 == 64,
            cfg.perfect_points == 3,
            cfg.good_points == 2,
            cfg.ok_points == 1,
            cfg.bad_penalty == 1,
            cfg.clear_threshold == 10,
            cfg.time_limit == 10_000,
            cfg.bar_center_x == 320,
            cfg.bar_half_width == 256,
            cfg.cue_start_x == 336,
            !cfg.cue_start_moving_right,
            cfg.cue_speed == 7,
    {
        GameConfig {
            t1: 16,
            t2: 32,
            t3: 64,
            perfect_points: 3,
            good_points: 2,
            ok_points: 1,
            bad_penalty: 1,
            clear_threshold: 10,
            time_limit: 10_000,
            bar_center_x: 320,
            bar_half_width: 256,
            cue_start_x: 336,
            cue_start_moving_right: false,
            cue_speed: 7,
        }
    }
}

} // verus!
