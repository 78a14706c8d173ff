//! Timing evaluation and score bookkeeping: the distance between cue and bar
//! center at input time is classified into a discrete outcome, and each
//! outcome adjusts the round's score, which never goes below zero.

use vstd::prelude::*;
use crate::config::GameConfig;

verus! {

/// Discrete classification of one input's timing accuracy. An outcome lives
/// for the tick that produced it: it is returned to the caller and consumed
/// by the score bookkeeping and by outside collaborators (sound, effects).
#[derive(Clone, Copy, Debug, PartialEq, Eq)]
pub enum Outcome {
    Perfect,
    Good,
    Okay,
    Bad,
}

/// Absolute distance between two coordinates.
pub open spec fn dist(a: int, b: int) -> int {
    if a - b >= 0 {
        a - b
    } else {
        b - a
    }
}

/// The perfect window: strictly inside the first threshold.
pub open spec fn is_perfect(d: int, cfg: GameConfig) -> bool {
    d < cfg.t1
}

/// The good window: from the first threshold up to, excluding, the second.
pub open spec fn is_good(d: int, cfg: GameConfig) -> bool {
    cfg.t1 <= d < cfg.t2
}

/// The ok window: from the second threshold up to, excluding, the third.
pub open spec fn is_ok_hit(d: int, cfg: GameConfig) -> bool {
    cfg.t2 <= d < cfg.t3
}

/// The bad window: the third threshold and everything beyond it.
pub open spec fn is_bad(d: int, cfg: GameConfig) -> bool {
    d >= cfg.t3
}

/// Which outcome a distance classifies to. Ties at a boundary go to the
/// wider (worse) bucket: each window excludes its upper bound.
pub open spec fn classify_spec(d: int, cfg: GameConfig) -> Outcome {
    if d < cfg.t1 {
        Outcome::Perfect
    } else if d < cfg.t2 {
        Outcome::Good
    } else if d < cfg.t3 {
        Outcome::Okay
    } else {
        Outcome::Bad
    }
}

/// The score after one outcome is applied: rewards add (saturating at
/// `u64::MAX`, which no real round approaches), and a bad hit subtracts the
/// penalty, floored at zero.
pub open spec fn score_step(score: u64, o: Outcome, cfg: GameConfig) -> u64 {
    match o {
        Outcome::Perfect => sat_add(score, cfg.perfect_points),
        Outcome::Good => sat_add(score, cfg.good_points),
        Outcome::Okay => sat_add(score, cfg.ok_points),
        Outcome::Bad => if score >= cfg.bad_penalty {
            (score - cfg.bad_penalty) as u64
        } else {
            0
        },
    }
}

/// Addition on scores, saturating at `u64::MAX`.
pub open spec fn sat_add(a: u64, b: u64) -> u64 {
    if a + b <= u64::MAX {
        (a + b) as u64
    } else {
        u64::MAX
    }
}

/// The score reached from zero after a sequence of outcomes.
pub open spec fn score_after(outcomes: Seq<Outcome>, cfg: GameConfig) -> u64
    decreases outcomes.len(),
{
    if outcomes.len() == 0 {
        0
    } else {
        score_step(score_after(outcomes.drop_last(), cfg), outcomes.last(), cfg)
    }
}

/// Measures the cue-to-bar distance sampled at input time.
pub fn distance(cue_x: i64, center_x: i64) -> (d: u64)
    requires
        i64::MIN < cue_x - center_x <= i64::MAX,
        i64::MIN < center_x - cue_x <= i64::MAX,
    ensures
        d == dist(cue_x as int, center_x as int),
{
    if cue_x >= center_x {
        (cue_x - center_x) as u64
    } else {
        (center_x - cue_x) as u64
    }
}

/// Classifies a measured distance into the outcome of this input.
pub fn classify(d: u64, cfg: &GameConfig) -> (o: Outcome)
    ensures
        o == classify_spec(d as int, *cfg),
{
    if d < cfg.t1 {
        Outcome::Perfect
    } else if d < cfg.t2 {
        Outcome::Good
    } else if d < cfg.t3 {
        Outcome::Okay
    } else {
        Outcome::Bad
    }
}

/// Applies one outcome to the score.
pub fn apply_outcome(score: u64, o: Outcome, cfg: &GameConfig) -> (r: u64)
    ensures
        r == score_step(score, o, *cfg),
{
    match o {
        Outcome::Perfect => if score <= u64::MAX - cfg.perfect_points {
            score + cfg.perfect_points
        } else {
            u64::MAX
        },
        Outcome::Good => if score <= u64::MAX - cfg.good_points {
            score + cfg.good_points
        } else {
            u64::MAX
        },
        Outcome::Okay => if score <= u64::MAX - cfg.ok_points {
            score + cfg.ok_points
        } else {
            u64::MAX
        },
        Outcome::Bad => if score >= cfg.bad_penalty {
            score - cfg.bad_penalty
        } else {
            0
        },
    }
}

/// For every distance the four hit windows are a total, non-overlapping
/// partition: exactly one of perfect, good, ok and bad holds, boundary ties
/// falling to the wider bucket, and `classify_spec` picks exactly the window
/// its distance lies in.
pub proof fn lemma_classification_partition(d: int, cfg: GameConfig)
    requires
        cfg.wf(),
        d >= 0,
    ensures
        is_perfect(d, cfg) || is_good(d, cfg) || is_ok_hit(d, cfg) || is_bad(d, cfg),
        is_perfect(d, cfg) ==> !is_good(d, cfg) && !is_ok_hit(d, cfg) && !is_bad(d, cfg),
        is_good(d, cfg) ==> !is_perfect(d, cfg) && !is_ok_hit(d, cfg) && !is_bad(d, cfg),
        is_ok_hit(d, cfg) ==> !is_perfect(d, cfg) && !is_good(d, cfg) && !is_bad(d, cfg),
        is_bad(d, cfg) ==> !is_perfect(d, cfg) && !is_good(d, cfg) && !is_ok_hit(d, cfg),
        classify_spec(d, cfg) is Perfect <==> is_perfect(d, cfg),
        classify_spec(d, cfg) is Good <==> is_good(d, cfg),
        classify_spec(d, cfg) is Okay <==> is_ok_hit(d, cfg),
        classify_spec(d, cfg) is Bad <==> is_bad(d, cfg),
        d == cfg.t1 ==> classify_spec(d, cfg) is Good,
        d == cfg.t2 ==> classify_spec(d, cfg) is Okay,
        d == cfg.t3 ==> classify_spec(d, cfg) is Bad,
{
}

/// The score never goes negative: after every prefix of any sequence of
/// outcomes, the score reached from zero is at least zero — a bad hit
/// subtracts its penalty only down to the floor of zero.
pub proof fn lemma_score_never_negative(outcomes: Seq<Outcome>, cfg: GameConfig)
    ensures
        forall|i: int| 0 <= i <= outcomes.len() ==> score_after(outcomes.take(i), cfg) >= 0,
{
}

} // verus!
