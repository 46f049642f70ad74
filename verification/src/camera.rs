//! The free-flying camera's speed tiers and pitch limit.
//!
//! There are three tiers (slow exploration, normal crossing, fast jump); the
//! mouse wheel moves one tier up or down, and stops at either end. The
//! orientation and position of the camera stay with the caller, which hands
//! the wheel movement and the pitch over as binary32 encodings.
use vstd::prelude::*;

use crate::ieee_order::{clamp, clamped, gt, is_nan, lt, precedes, precedes_or_equals};

verus! {

/// Number of speed tiers.
pub const TIER_COUNT: usize = 3;

/// Speed of each tier, in scene units per second.
pub const VITESSES: [u32; 3] = [20, 40, 120];

/// Encoding of `0.5_f32`: a wheel movement above it goes one tier up.
pub const WHEEL_UP: u32 = 0x3f00_0000;

/// Encoding of `-0.5_f32`: a wheel movement below it goes one tier down.
pub const WHEEL_DOWN: u32 = 0xbf00_0000;

/// Encoding of `1.48_f32`, the largest pitch, in radians.
pub const PITCH_MAX: u32 = 0x3fbd_70a4;

/// Encoding of `-1.48_f32`, the smallest pitch, in radians.
pub const PITCH_MIN: u32 = 0xbfbd_70a4;

/// The speed of a tier.
pub open spec fn tier_speed(tier: int) -> int {
    if tier == 0 {
        20
    } else if tier == 1 {
        40
    } else {
        120
    }
}

/// The tier after one wheel movement: up by one (at most to the top tier)
/// when the wheel moved more than 0.5, down by one (at least to the bottom
/// tier) when it moved less than -0.5, unchanged otherwise.
pub open spec fn next_tier(tier: int, scroll: u32) -> int {
    if precedes(WHEEL_UP, scroll) {
        if tier + 1 < TIER_COUNT {
            tier + 1
        } else {
            TIER_COUNT - 1
        }
    } else if precedes(scroll, WHEEL_DOWN) {
        if tier > 0 {
            tier - 1
        } else {
            0
        }
    } else {
        tier
    }
}

/// The camera's speed state: the index of its current tier.
pub struct Cam {
    vitesse_idx: usize,
}

impl Cam {
    #[verifier::type_invariant]
    spec fn tier_in_range(self) -> bool {
        self.vitesse_idx < TIER_COUNT
    }

    /// The index of the current tier, 0 for the slowest.
    pub closed spec fn tier(self) -> int {
        self.vitesse_idx as int
    }

    /// A camera at the middle tier.
    pub fn new() -> (c: Cam)
        ensures
            c.tier() == 1,
    {
        Cam { vitesse_idx: 1 }
    }

    /// The tier as shown to the user, from 1 to 3.
    pub fn palier(&self) -> (p: usize)
        ensures
            p == self.tier() + 1,
            1 <= p <= TIER_COUNT,
    {
        proof {
            use_type_invariant(self);
        }
        self.vitesse_idx + 1
    }

    /// The speed of the current tier, in scene units per second.
    pub fn speed(&self) -> (s: u32)
        ensures
            s == tier_speed(self.tier()),
    {
        proof {
            use_type_invariant(self);
        }
        VITESSES[self.vitesse_idx]
    }

    /// Applies one wheel movement, given as a binary32 encoding.
    pub fn update_speed(&mut self, scroll: u32)
        ensures
            final(self).tier() == next_tier(old(self).tier(), scroll),
            0 <= final(self).tier() < TIER_COUNT,
    {
        proof {
            use_type_invariant(&*self);
        }
        if gt(scroll, WHEEL_UP) {
            let up: usize = self.vitesse_idx + 1;
            self.vitesse_idx = if up < TIER_COUNT {
                up
            } else {
                TIER_COUNT - 1
            };
        } else if lt(scroll, WHEEL_DOWN) {
            self.vitesse_idx = if self.vitesse_idx > 0 {
                self.vitesse_idx - 1
            } else {
                0
            };
        }
    }
}

/// The pitch kept within `[-1.48, 1.48]` radians; a NaN pitch stays NaN.
pub fn clamp_pitch(pitch: u32) -> (p: u32)
    ensures
        p == clamped(pitch, PITCH_MIN, PITCH_MAX),
        !is_nan(pitch) ==> precedes_or_equals(PITCH_MIN, p) && precedes_or_equals(p, PITCH_MAX),
{
    clamp(pitch, PITCH_MIN, PITCH_MAX)
}

/// A wheel movement changes the tier by at most one, and the tier stays
/// within the three tiers.
pub proof fn lemma_tier_moves_by_one(tier: int, scroll: u32)
    requires
        0 <= tier < TIER_COUNT,
    ensures
        0 <= next_tier(tier, scroll) < TIER_COUNT,
        tier - 1 <= next_tier(tier, scroll) <= tier + 1,
{
}

/// Going one tier up and then one down returns to where the camera was,
/// unless it was already at the top; and the other way round, unless it was
/// at the bottom.
pub proof fn lemma_up_then_down(tier: int, up: u32, down: u32)
    requires
        0 <= tier < TIER_COUNT,
        precedes(WHEEL_UP, up),
        precedes(down, WHEEL_DOWN),
    ensures
        tier < TIER_COUNT - 1 ==> next_tier(next_tier(tier, up), down) == tier,
        tier > 0 ==> next_tier(next_tier(tier, down), up) == tier,
        next_tier(TIER_COUNT - 1, up) == TIER_COUNT - 1,
        next_tier(0, down) == 0,
{
}

/// A wheel movement within `[-0.5, 0.5]`, or a NaN, leaves the tier as it
/// is.
pub proof fn lemma_small_scroll_keeps_tier(tier: int, scroll: u32)
    requires
        is_nan(scroll) || (precedes_or_equals(WHEEL_DOWN, scroll) && precedes_or_equals(
            scroll,
            WHEEL_UP,
        )),
    ensures
        next_tier(tier, scroll) == tier,
{
}

} // verus!
