//! Colours of the clouds that make up a nebula.
use vstd::prelude::*;

use rand::rngs::StdRng;

use crate::color::Rgba;
use crate::rng::draw_i32_through;

verus! {

/// Largest change, up or down, that a cloud makes to each channel of the
/// nebula's colour.
pub const CLOUD_JITTER: i32 = 20;

/// Number of clouds in a nebula.
pub const CLOUDS_PER_NEBULA: usize = 60;

/// Opacity of every cloud.
pub const CLOUD_ALPHA: u8 = 80;

/// A channel value pushed into `[0, 255]`.
pub open spec fn clamp_channel(v: int) -> u8 {
    if v < 0 {
        0
    } else if v > 255 {
        255
    } else {
        v as u8
    }
}

/// The nebula colour with each channel moved by the given amounts, and the
/// cloud opacity.
pub open spec fn shifted_cloud(base: Rgba, dr: int, dg: int, db: int) -> Rgba {
    Rgba {
        r: clamp_channel(base.r + dr),
        g: clamp_channel(base.g + dg),
        b: clamp_channel(base.b + db),
        a: CLOUD_ALPHA,
    }
}

/// `c` is the colour of some cloud of a nebula of colour `base`: each
/// channel moved by at most 20 either way, then clamped.
pub open spec fn is_cloud_color(base: Rgba, c: Rgba) -> bool {
    exists|dr: int, dg: int, db: int|
        -CLOUD_JITTER <= dr <= CLOUD_JITTER && -CLOUD_JITTER <= dg <= CLOUD_JITTER
            && -CLOUD_JITTER <= db <= CLOUD_JITTER && c == #[trigger] shifted_cloud(base, dr, dg, db)
}

/// A channel moved by `d` and clamped to `[0, 255]`.
pub fn jitter_channel(c: u8, d: i32) -> (r: u8)
    requires
        c + d <= i32::MAX,
    ensures
        r == clamp_channel(c + d),
{
    let v: i32 = c as i32 + d;
    if v < 0 {
        0
    } else if v > 255 {
        255
    } else {
        v as u8
    }
}

/// The colour of a cloud whose red, green and blue channels are moved by
/// `dr`, `dg` and `db`: each clamped to `[0, 255]`, opacity 80.
pub fn shifted_cloud_color(couleur: Rgba, dr: i32, dg: i32, db: i32) -> (c: Rgba)
    requires
        -CLOUD_JITTER <= dr <= CLOUD_JITTER,
        -CLOUD_JITTER <= dg <= CLOUD_JITTER,
        -CLOUD_JITTER <= db <= CLOUD_JITTER,
    ensures
        c == shifted_cloud(couleur, dr as int, dg as int, db as int),
{
    Rgba::new(
        jitter_channel(couleur.r, dr),
        jitter_channel(couleur.g, dg),
        jitter_channel(couleur.b, db),
        CLOUD_ALPHA,
    )
}

/// The colour of one cloud: three draws in `-20..=20`, for red, green and
/// blue in that order, added to the nebula's colour and clamped; the
/// opacity is 80.
pub fn cloud_color(rng: &mut StdRng, couleur: Rgba) -> (c: Rgba)
    ensures
        is_cloud_color(couleur, c),
        c.a == CLOUD_ALPHA,
{
    let dr = draw_i32_through(rng, -CLOUD_JITTER, CLOUD_JITTER);
    let dg = draw_i32_through(rng, -CLOUD_JITTER, CLOUD_JITTER);
    let db = draw_i32_through(rng, -CLOUD_JITTER, CLOUD_JITTER);
    shifted_cloud_color(couleur, dr, dg, db)
}

/// Clamping keeps a channel value that is already in `[0, 255]` and sends
/// the others to the nearer end.
pub proof fn lemma_clamp_channel(v: int)
    ensures
        0 <= v <= 255 ==> clamp_channel(v) == v,
        v < 0 ==> clamp_channel(v) == 0,
        v > 255 ==> clamp_channel(v) == 255,
{
}

/// A cloud's channels stay within 20 of the nebula's, and within the
/// nebula's range when they are clamped.
pub proof fn lemma_cloud_color_close_to_nebula(base: Rgba, c: Rgba)
    requires
        is_cloud_color(base, c),
    ensures
        base.r - CLOUD_JITTER <= c.r <= base.r + CLOUD_JITTER,
        base.g - CLOUD_JITTER <= c.g <= base.g + CLOUD_JITTER,
        base.b - CLOUD_JITTER <= c.b <= base.b + CLOUD_JITTER,
        c.a == CLOUD_ALPHA,
{
    let (dr, dg, db) = choose|dr: int, dg: int, db: int|
        -CLOUD_JITTER <= dr <= CLOUD_JITTER && -CLOUD_JITTER <= dg <= CLOUD_JITTER
            && -CLOUD_JITTER <= db <= CLOUD_JITTER && c == #[trigger] shifted_cloud(base, dr, dg, db);
}

} // verus!
