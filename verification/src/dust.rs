//! Cosmic dust: the grey level, opacity and tint of each dust point.
//!
//! The dust fills two layers, a background sphere and a flattened local disk.
//! A sphere point draws a grey level in `55..110`, an opacity in `100..230`
//! and a tint roll in `0..100`; a disk point draws a grey level in `60..100`
//! and an opacity in `100..220`.
use vstd::prelude::*;

use rand::rngs::StdRng;

use crate::ieee_order::{lt, precedes};
use crate::rng::draw_u8_below;

verus! {

/// Encoding of `0.08_f32`: a sphere dust point whose brightness roll is
/// below it is drawn as a glowing billboard rather than a point.
pub const BRIGHT_CHANCE: u32 = 0x3da3_d70a;

/// The tint of a sphere dust point.
#[derive(Clone, Copy, Debug, PartialEq, Eq, Structural)]
pub enum DustTint {
    /// Bluish (15 % of the points).
    Bluish,
    /// Warm (10 % of the points).
    Warm,
    /// Neutral grey (the rest).
    Grey,
}

/// The integer draws of one dust point.
#[derive(Clone, Copy, Debug, PartialEq, Eq, Structural)]
pub struct DustShade {
    /// Grey level.
    pub v: u8,
    /// Opacity.
    pub a: u8,
    /// Tint roll, in `0..100` (sphere points only; 100 for disk points).
    pub teinte: u8,
}

/// The tint that a roll selects: below 15 bluish, below 25 warm, grey
/// otherwise.
pub open spec fn tint_for(teinte: u8) -> DustTint {
    if teinte < 15 {
        DustTint::Bluish
    } else if teinte < 25 {
        DustTint::Warm
    } else {
        DustTint::Grey
    }
}

/// The tint that a roll selects.
pub fn tint_of(teinte: u8) -> (t: DustTint)
    ensures
        t == tint_for(teinte),
{
    if teinte < 15 {
        DustTint::Bluish
    } else if teinte < 25 {
        DustTint::Warm
    } else {
        DustTint::Grey
    }
}

/// Whether a sphere dust point glows, given its brightness roll (an
/// encoding).
pub fn is_bright(roll: u32) -> (b: bool)
    ensures
        b == precedes(roll, BRIGHT_CHANCE),
{
    lt(roll, BRIGHT_CHANCE)
}

/// The draws of a background-sphere point, in order: grey level, opacity,
/// tint roll.
pub fn draw_sphere_shade(rng: &mut StdRng) -> (s: DustShade)
    ensures
        55 <= s.v < 110,
        100 <= s.a < 230,
        s.teinte < 100,
{
    let v = draw_u8_below(rng, 55, 110);
    let a = draw_u8_below(rng, 100, 230);
    let teinte = draw_u8_below(rng, 0, 100);
    DustShade { v, a, teinte }
}

/// The draws of a local-disk point, in order: grey level, opacity. Disk
/// points carry no tint roll; their `teinte` is 100.
pub fn draw_disk_shade(rng: &mut StdRng) -> (s: DustShade)
    ensures
        60 <= s.v < 100,
        100 <= s.a < 220,
        s.teinte == 100,
        tint_for(s.teinte) == DustTint::Grey,
{
    let v = draw_u8_below(rng, 60, 100);
    let a = draw_u8_below(rng, 100, 220);
    DustShade { v, a, teinte: 100 }
}

/// Of the 100 tint rolls, 15 give a bluish point, 10 a warm one and 75 a
/// grey one; larger rolls never give a bluer tint.
pub proof fn lemma_tint_bands(x: u8, y: u8)
    ensures
        tint_for(x) == DustTint::Bluish <==> x < 15,
        tint_for(x) == DustTint::Warm <==> 15 <= x < 25,
        tint_for(x) == DustTint::Grey <==> x >= 25,
        x <= y && tint_for(x) == DustTint::Grey ==> tint_for(y) == DustTint::Grey,
        x <= y && tint_for(y) == DustTint::Bluish ==> tint_for(x) == DustTint::Bluish,
{
}

} // verus!
