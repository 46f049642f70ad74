//! The accretion disk of a black hole: how many particles it has and which
//! colour each one takes.
use vstd::prelude::*;

use crate::color::Rgba;
use crate::ieee_order::{gt, is_nan, order_key, precedes};

verus! {

/// Number of particles in an accretion disk.
pub const DISK_PARTICLES: usize = 36;

/// Encoding of `0.65_f32`: particles whose heat roll exceeds it are white
/// hot.
pub const WHITE_HOT_HEAT: u32 = 0x3f26_6666;

/// The colour of a white-hot particle.
pub open spec fn white_hot() -> Rgba {
    Rgba { r: 255, g: 245, b: 190, a: 255 }
}

/// The colour of a disk particle from its heat roll (an encoding): white hot
/// above 0.65, otherwise orange-red with the given green level (which the
/// caller derives from the heat).
pub open spec fn disk_color_for(heat: u32, green: u8) -> Rgba {
    if precedes(WHITE_HOT_HEAT, heat) {
        white_hot()
    } else {
        Rgba { r: 255, g: green, b: 15, a: 255 }
    }
}

/// The colour of a disk particle.
pub fn disk_color(heat: u32, green: u8) -> (c: Rgba)
    ensures
        c == disk_color_for(heat, green),
        c.r == 255 && c.a == 255,
{
    if gt(heat, WHITE_HOT_HEAT) {
        Rgba::new(255, 245, 190, 255)
    } else {
        Rgba::new(255, green, 15, 255)
    }
}

/// Every particle hotter than 0.65 is white hot, whatever its heat above
/// that; every other particle is orange-red with the green level it was
/// given.
pub proof fn lemma_disk_color_by_heat(heat: u32, green: u8)
    ensures
        precedes(WHITE_HOT_HEAT, heat) ==> disk_color_for(heat, green) == (Rgba {
            r: 255,
            g: 245,
            b: 190,
            a: 255,
        }),
        !precedes(WHITE_HOT_HEAT, heat) ==> disk_color_for(heat, green) == (Rgba {
            r: 255,
            g: green,
            b: 15,
            a: 255,
        }),
{
}

/// A hotter particle is never less white: if one heat gives white, every
/// larger heat gives white too.
pub proof fn lemma_white_hot_upward(h1: u32, h2: u32, green: u8)
    requires
        !is_nan(h2),
        order_key(h1) <= order_key(h2),
        disk_color_for(h1, green) == white_hot(),
    ensures
        disk_color_for(h2, green) == white_hot(),
{
}

} // verus!
