//! The discrete choices made while a spiral galaxy is generated: its number
//! of arms, the arm of each star, the range of biased spectral rolls, and
//! whether the galaxy is tilted at all.
use vstd::prelude::*;

use rand::rngs::StdRng;

use crate::ieee_order::{
    clamp, clamped, gt, is_nan, magnitude, precedes, precedes_or_equals, INFINITY_MAGNITUDE, SIGN_BIT,
};
use crate::rng::{draw_u32_below, draw_u32_through};

verus! {

/// Fewest spiral arms of a galaxy.
pub const MIN_ARMS: u32 = 3;

/// Most spiral arms of a galaxy.
pub const MAX_ARMS: u32 = 5;

/// Encoding of `0.001_f32`: the smallest biased roll.
pub const ROLL_FLOOR: u32 = 0x3a83_126f;

/// Encoding of `0.001_f32`: a galaxy whose tilt is no larger (in absolute
/// value) is left flat.
pub const TILT_EPSILON: u32 = 0x3a83_126f;

/// Encoding of `0.999_f32`: the largest biased roll.
pub const ROLL_CEIL: u32 = 0x3f7f_be77;

/// The encoding of the absolute value: the sign bit cleared.
pub open spec fn abs_bits(x: u32) -> u32 {
    if x >= SIGN_BIT {
        (x - SIGN_BIT) as u32
    } else {
        x
    }
}

/// The number of spiral arms: one draw in `3..=5`.
pub fn draw_arm_count(rng: &mut StdRng) -> (n: u32)
    ensures
        MIN_ARMS <= n <= MAX_ARMS,
{
    draw_u32_through(rng, MIN_ARMS, MAX_ARMS)
}

/// The arm of one star: one draw in `0..nb_bras`.
pub fn draw_arm(rng: &mut StdRng, nb_bras: u32) -> (arm: u32)
    requires
        nb_bras > 0,
    ensures
        arm < nb_bras,
{
    draw_u32_below(rng, 0, nb_bras)
}

/// A biased spectral roll kept within `[0.001, 0.999]` (encodings).
pub fn clamp_roll(roll: u32) -> (r: u32)
    ensures
        r == clamped(roll, ROLL_FLOOR, ROLL_CEIL),
        !is_nan(roll) ==> precedes_or_equals(ROLL_FLOOR, r) && precedes_or_equals(r, ROLL_CEIL),
{
    clamp(roll, ROLL_FLOOR, ROLL_CEIL)
}

/// Whether the galaxy's tilt, in radians (an encoding), is large enough to
/// rotate its stars: its absolute value exceeds 0.001.
pub fn is_tilted(inclinaison: u32) -> (t: bool)
    ensures
        t == precedes(TILT_EPSILON, abs_bits(inclinaison)),
        t == (TILT_EPSILON < magnitude(inclinaison) <= INFINITY_MAGNITUDE),
{
    let a: u32 = if inclinaison >= SIGN_BIT {
        inclinaison - SIGN_BIT
    } else {
        inclinaison
    };
    gt(a, TILT_EPSILON)
}

/// A tilt and its opposite are treated alike.
pub proof fn lemma_tilt_ignores_sign(x: u32)
    requires
        x < SIGN_BIT,
    ensures
        abs_bits((x + SIGN_BIT) as u32) == abs_bits(x),
{
}

/// Clearing the sign bit gives the magnitude: a non-negative encoding is
/// its own absolute value, a negative one loses only its sign bit.
pub proof fn lemma_abs_bits_is_magnitude(x: u32)
    ensures
        abs_bits(x) == magnitude(x),
        x < SIGN_BIT ==> abs_bits(x) == x,
        x >= SIGN_BIT ==> abs_bits(x) + SIGN_BIT == x,
{
}

/// A galaxy is tilted exactly when its tilt is a number whose absolute value
/// exceeds 0.001; a NaN tilt leaves it flat.
pub proof fn lemma_tilted_iff_large(x: u32)
    ensures
        precedes(TILT_EPSILON, abs_bits(x)) <==> (TILT_EPSILON < magnitude(x)
            <= INFINITY_MAGNITUDE),
        x < SIGN_BIT && !is_nan(x) ==> (precedes(TILT_EPSILON, abs_bits(x)) <==> precedes(
            TILT_EPSILON,
            x,
        )),
{
}

} // verus!
