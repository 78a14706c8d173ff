//! Cue motion: the bar is the fixed reference zone, the cue oscillates across
//! it, and the cue's direction flips exactly on the tick whose starting
//! position lies beyond an edge of the bar, raising one reversal signal.

use vstd::prelude::*;
use crate::config::COORD_LIMIT;

verus! {

/// The fixed reference zone of a round, the origin of distance measurement.
/// Immutable per round: created when a round starts, frozen after it ends.
#[derive(Clone, Copy, Debug)]
pub struct Bar {
    pub center_x: i64,
    pub half_width: i64,
}

impl Bar {
    /// Bounded geometry with a real width.
    pub open spec fn wf(self) -> bool {
        &&& -COORD_LIMIT <= self.center_x <= COORD_LIMIT
        &&& 0 < self.half_width <= COORD_LIMIT
    }

    /// The left boundary of the zone.
    pub open spec fn left_edge(self) -> int {
        self.center_x - self.half_width
    }

    /// The right boundary of the zone.
    pub open spec fn right_edge(self) -> int {
        self.center_x + self.half_width
    }
}

/// The moving marker. It travels `speed` length units per tick and reverses
/// after crossing an edge of the bar, so it overshoots an edge by at most one
/// tick's travel and needs no hard clamp.
#[derive(Clone, Copy, Debug)]
pub struct Cue {
    pub position_x: i64,
    pub moving_right: bool,
    pub speed: i64,
}

impl Cue {
    /// A real, bounded per-tick travel.
    pub open spec fn wf(self) -> bool {
        0 < self.speed <= COORD_LIMIT
    }

    /// Whether the cue lies strictly beyond an edge of the bar, which is what
    /// triggers a reversal on the next tick.
    pub open spec fn beyond_edge(self, bar: Bar) -> bool {
        self.position_x > bar.right_edge() || self.position_x < bar.left_edge()
    }

    /// The positions the cue can occupy while it oscillates: within the bar,
    /// or past an edge by less than one tick's travel and then only moving
    /// outward, about to be flipped. `advance` preserves this band
    /// (`lemma_advance_stays_in_band`), and it keeps the position arithmetic
    /// within bounds.
    pub open spec fn in_travel_band(self, bar: Bar) -> bool {
        &&& bar.left_edge() - self.speed <= self.position_x <= bar.right_edge() + self.speed
        &&& self.position_x > bar.right_edge() ==> self.moving_right
        &&& self.position_x < bar.left_edge() ==> !self.moving_right
    }

    /// One tick of cue motion: first the reversal check on the starting
    /// position, then one tick's travel in the (possibly flipped) direction.
    /// The second component is the reversal signal of this tick.
    pub open spec fn advance_spec(self, bar: Bar) -> (Cue, bool) {
        let reversed = self.beyond_edge(bar);
        let moving_right = if reversed {
            !self.moving_right
        } else {
            self.moving_right
        };
        let travel = if moving_right {
            self.speed as int
        } else {
            -(self.speed as int)
        };
        (
            Cue {
                position_x: (self.position_x + travel) as i64,
                moving_right,
                speed: self.speed,
            },
            reversed,
        )
    }

    /// Advances the cue by one tick across the bar, flipping its direction on
    /// the tick that starts beyond an edge. Returns whether this tick raised
    /// the reversal signal; at most one signal is raised per tick.
    pub fn advance(&mut self, bar: &Bar) -> (reversed: bool)
        requires
            old(self).wf(),
            bar.wf(),
            old(self).position_x + old(self).speed <= i64::MAX,
            i64::MIN <= old(self).position_x - old(self).speed,
        ensures
            (*final(self), reversed) == old(self).advance_spec(*bar),
            reversed == old(self).beyond_edge(*bar),
            final(self).speed == old(self).speed,
            final(self).moving_right == if reversed {
                !old(self).moving_right
            } else {
                old(self).moving_right
            },
            final(self).position_x == old(self).position_x + if final(self).moving_right {
                old(self).speed as int
            } else {
                -(old(self).speed as int)
            },
    {
        let reversed = self.position_x > bar.center_x + bar.half_width
            || self.position_x < bar.center_x - bar.half_width;
        if reversed {
            self.moving_right = !self.moving_right;
        }
        if self.moving_right {
            self.position_x = self.position_x + self.speed;
        } else {
            self.position_x = self.position_x - self.speed;
        }
        reversed
    }

    /// Places the cue for a fresh round.
    pub fn spawn(position_x: i64, moving_right: bool, speed: i64) -> (c: Cue)
        ensures
            c.position_x == position_x,
            c.moving_right == moving_right,
            c.speed == speed,
    {
        Cue { position_x, moving_right, speed }
    }
}

/// Reversal is raised exactly once per boundary crossing: a tick raises the
/// signal if and only if it starts beyond an edge of the bar, it flips the
/// direction exactly when it raises the signal, and — the tick's signal being
/// a single boolean — never more than one signal is raised per tick, even
/// when one tick's travel is wide enough to cross both boundaries.
pub proof fn lemma_reversal_once_per_crossing(c: Cue, bar: Bar)
    requires
        c.wf(),
        bar.wf(),
    ensures
        c.advance_spec(bar).1 <==> c.beyond_edge(bar),
        c.advance_spec(bar).0.moving_right == if c.beyond_edge(bar) {
            !c.moving_right
        } else {
            c.moving_right
        },
{
}

/// A cue inside its travel band stays inside it: the overshoot past an edge
/// never exceeds one tick's travel, because a tick that starts beyond an edge
/// flips the direction back toward the bar.
pub proof fn lemma_advance_stays_in_band(c: Cue, bar: Bar)
    requires
        c.wf(),
        bar.wf(),
        c.in_travel_band(bar),
    ensures
        c.advance_spec(bar).0.in_travel_band(bar),
        c.advance_spec(bar).0.wf(),
{
}

} // verus!
