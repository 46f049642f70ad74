//! Shooting stars: a fixed pool of streaks that light up at random and fade
//! along a short trail.
//!
//! Times and rolls come as binary32 encodings computed by the caller.
use vstd::prelude::*;

use crate::ieee_order::{is_nan, le, lt, order_key, precedes, precedes_or_equals};

verus! {

/// Number of shooting stars in the pool.
pub const POOL_SIZE: usize = 8;

/// Number of trail points drawn behind a shooting star.
pub const TRAIL_LEN: u8 = 3;

/// Encoding of `0.003_f32`: an idle shooting star lights up in a frame when
/// its roll is below it.
pub const SPAWN_CHANCE: u32 = 0x3b44_9ba6;

/// Encoding of `0.0_f32`.
pub const ZERO: u32 = 0;

/// The opacity of the `i`-th trail point: 200 less 60 per step, but never
/// below 40.
pub open spec fn trail_alpha_for(i: int) -> int {
    if 200 - 60 * i >= 40 {
        200 - 60 * i
    } else {
        40
    }
}

/// Whether a shooting star that started at `t_debut`, `elapsed` seconds
/// ago, with a duration of `duree`, is still crossing the sky. A start time
/// below zero marks a star that never started.
pub open spec fn active_for(t_debut: u32, elapsed: u32, duree: u32) -> bool {
    precedes_or_equals(ZERO, t_debut) && precedes(elapsed, duree)
}

/// The opacity of the `i`-th trail point, for `i` from 1 to 3.
pub fn trail_alpha(i: u8) -> (a: u8)
    requires
        1 <= i <= TRAIL_LEN,
    ensures
        a == trail_alpha_for(i as int),
        40 <= a <= 140,
{
    let step: u8 = i * 60;
    let raw: u8 = 200 - step;
    if raw >= 40 {
        raw
    } else {
        40
    }
}

/// Whether a shooting star is still crossing the sky.
pub fn is_active(t_debut: u32, elapsed: u32, duree: u32) -> (r: bool)
    ensures
        r == active_for(t_debut, elapsed, duree),
{
    le(ZERO, t_debut) && lt(elapsed, duree)
}

/// Whether an idle shooting star lights up, given this frame's roll.
pub fn spawns(roll: u32) -> (r: bool)
    ensures
        r == precedes(roll, SPAWN_CHANCE),
{
    lt(roll, SPAWN_CHANCE)
}

/// The trail fades: each point is at least as transparent as the one
/// before it, and the three opacities are 140, 80 and 40.
pub proof fn lemma_trail_fades(i: int, j: int)
    requires
        1 <= i <= j <= TRAIL_LEN,
    ensures
        trail_alpha_for(j) <= trail_alpha_for(i),
        trail_alpha_for(1) == 140 && trail_alpha_for(2) == 80 && trail_alpha_for(3) == 40,
{
}

/// A shooting star is active exactly when it has started (its start time is
/// a number no smaller than zero) and the time elapsed since is a number
/// strictly smaller than its duration, whatever that duration is.
pub proof fn lemma_active_until_duration(t_debut: u32, elapsed: u32, duree: u32)
    ensures
        active_for(t_debut, elapsed, duree) <==> (!is_nan(t_debut) && order_key(t_debut) >= 0
            && !is_nan(elapsed) && !is_nan(duree) && order_key(elapsed) < order_key(duree)),
{
}

/// A longer duration never ends a streak earlier, and a streak active at
/// some elapsed time was active at every earlier (non-NaN) one.
pub proof fn lemma_active_monotone(t_debut: u32, e1: u32, e2: u32, d1: u32, d2: u32)
    requires
        !is_nan(e1),
        !is_nan(d2),
        order_key(e1) <= order_key(e2),
        order_key(d1) <= order_key(d2),
    ensures
        active_for(t_debut, e2, d1) ==> active_for(t_debut, e1, d2),
{
}

} // verus!
