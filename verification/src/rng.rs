//! The seeded generator that drives the procedural scene, and the integer
//! draws that the library makes from it.
//!
//! Each draw is `rand::Rng::gen_range` at one integer type. The type is part
//! of the draw: rand samples `u8`, `i32` and `u32` from a 32-bit word and
//! `usize` from a machine word, so the same range at another type would
//! consume the generator differently.
use vstd::prelude::*;

use rand::rngs::StdRng;
use rand::Rng;

verus! {

#[verifier::external_type_specification]
#[verifier::external_body]
pub struct ExStdRng(rand::rngs::StdRng);

/// `rng.gen_range(lo..hi)` on `u8` (rand `Rng::gen_range` with a half-open
/// range). rand asserts that the range is not empty and otherwise returns
/// `lo` plus a value below `hi - lo`; which one depends on the generator's
/// state, and nothing more is claimed of it.
#[verifier::external_body]
pub(crate) fn draw_u8_below(rng: &mut StdRng, lo: u8, hi: u8) -> (r: u8)
    requires
        lo < hi,
    ensures
        lo <= r < hi,
{
    rng.gen_range(lo..hi)
}

/// `rng.gen_range(lo..hi)` on `u32` (rand `Rng::gen_range` with a half-open
/// range): a value in `[lo, hi)`; rand panics on an empty range.
#[verifier::external_body]
pub(crate) fn draw_u32_below(rng: &mut StdRng, lo: u32, hi: u32) -> (r: u32)
    requires
        lo < hi,
    ensures
        lo <= r < hi,
{
    rng.gen_range(lo..hi)
}

/// `rng.gen_range(lo..=hi)` on `u32` (rand `Rng::gen_range` with an
/// inclusive range): a value in `[lo, hi]`; rand panics when `lo > hi`.
#[verifier::external_body]
pub(crate) fn draw_u32_through(rng: &mut StdRng, lo: u32, hi: u32) -> (r: u32)
    requires
        lo <= hi,
    ensures
        lo <= r <= hi,
{
    rng.gen_range(lo..=hi)
}

/// `rng.gen_range(lo..=hi)` on `i32` (rand `Rng::gen_range` with an
/// inclusive range): a value in `[lo, hi]`; rand panics when `lo > hi`.
#[verifier::external_body]
pub(crate) fn draw_i32_through(rng: &mut StdRng, lo: i32, hi: i32) -> (r: i32)
    requires
        lo <= hi,
    ensures
        lo <= r <= hi,
{
    rng.gen_range(lo..=hi)
}

/// `rng.gen_range(lo..=hi)` on `usize` (rand `Rng::gen_range` with an
/// inclusive range): a value in `[lo, hi]`; rand panics when `lo > hi`.
#[verifier::external_body]
pub(crate) fn draw_usize_through(rng: &mut StdRng, lo: usize, hi: usize) -> (r: usize)
    requires
        lo <= hi,
    ensures
        lo <= r <= hi,
{
    rng.gen_range(lo..=hi)
}

} // verus!
