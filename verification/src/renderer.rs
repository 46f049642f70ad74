//! The star renderer's decisions: how a star is drawn at its distance from
//! the camera, and how much the black holes' neighbourhood enlarges it.
//!
//! Distances come as binary32 encodings, computed by the caller.
use vstd::prelude::*;

use crate::ieee_order::{lt, le, precedes, precedes_or_equals};

verus! {

/// Encoding of `15.0_f32`: closer stars get large, saturated billboards.
pub const NEAR_DISTANCE: u32 = 0x4170_0000;

/// Encoding of `40.0_f32`: closer stars (and not near ones) get medium
/// billboards.
pub const MID_DISTANCE: u32 = 0x4220_0000;

/// Encoding of `3.0_f32`: stars this close to a black hole are in its dense
/// core.
pub const CORE_RADIUS: u32 = 0x4040_0000;

/// Encoding of `5.0_f32`: stars this close to a black hole (and not in its
/// core) are in its halo.
pub const HALO_RADIUS: u32 = 0x40a0_0000;

/// Encoding of `202500.0_f32` (450 squared): globular clusters farther than
/// 450 from the camera are not drawn.
pub const CLUSTER_CULL_SQ: u32 = 0x4845_c100;

/// How a star is drawn.
#[derive(Clone, Copy, Debug, PartialEq, Eq, Structural)]
pub enum Lod {
    /// Beyond the culling distance: not drawn.
    Culled,
    /// Beyond the billboard distance: a single point.
    Point,
    /// Closer than 15: a large, saturated billboard.
    Near,
    /// Closer than 40: a medium billboard.
    Mid,
    /// Farther: a billboard that fades out towards the billboard distance.
    Far,
}

/// How much the black holes enlarge a star.
#[derive(Clone, Copy, Debug, PartialEq, Eq, Structural)]
pub enum CoreBoost {
    /// No black hole nearby: size unchanged.
    Plain,
    /// In a black hole's halo: size times 1.8.
    Halo,
    /// In a black hole's dense core: size times 9.
    Core,
}

/// The level of detail of a star, from its squared distance to the camera,
/// the squared culling and billboard distances, and its distance to the
/// camera.
pub open spec fn lod_for(dist_sq: u32, cull_sq: u32, billboard_sq: u32, dist_cam: u32) -> Lod {
    if precedes(cull_sq, dist_sq) {
        Lod::Culled
    } else if precedes_or_equals(billboard_sq, dist_sq) {
        Lod::Point
    } else if precedes(dist_cam, NEAR_DISTANCE) {
        Lod::Near
    } else if precedes(dist_cam, MID_DISTANCE) {
        Lod::Mid
    } else {
        Lod::Far
    }
}

/// The enlargement of a star given its distances to the black holes, in the
/// order in which they are visited: the last black hole within 5 decides,
/// core within 3, halo otherwise.
pub open spec fn boost_for(dists: Seq<u32>) -> CoreBoost
    decreases dists.len(),
{
    if dists.len() == 0 {
        CoreBoost::Plain
    } else if precedes(dists.last(), CORE_RADIUS) {
        CoreBoost::Core
    } else if precedes(dists.last(), HALO_RADIUS) {
        CoreBoost::Halo
    } else {
        boost_for(dists.drop_last())
    }
}

/// The size factor of an enlargement, in tenths.
pub open spec fn boost_factor(b: CoreBoost) -> int {
    match b {
        CoreBoost::Plain => 10,
        CoreBoost::Halo => 18,
        CoreBoost::Core => 90,
    }
}

/// The level of detail of a star.
pub fn star_lod(dist_sq: u32, cull_sq: u32, billboard_sq: u32, dist_cam: u32) -> (l: Lod)
    ensures
        l == lod_for(dist_sq, cull_sq, billboard_sq, dist_cam),
{
    if lt(cull_sq, dist_sq) {
        Lod::Culled
    } else if le(billboard_sq, dist_sq) {
        Lod::Point
    } else if lt(dist_cam, NEAR_DISTANCE) {
        Lod::Near
    } else if lt(dist_cam, MID_DISTANCE) {
        Lod::Mid
    } else {
        Lod::Far
    }
}

/// The enlargement of a star, from its distances to the black holes.
pub fn core_boost(dists: &Vec<u32>) -> (b: CoreBoost)
    ensures
        b == boost_for(dists@),
{
    let mut b = CoreBoost::Plain;
    let mut i: usize = 0;
    while i < dists.len()
        invariant
            i <= dists.len(),
            b == boost_for(dists@.take(i as int)),
        decreases dists.len() - i,
    {
        let d = dists[i];
        if lt(d, CORE_RADIUS) {
            b = CoreBoost::Core;
        } else if lt(d, HALO_RADIUS) {
            b = CoreBoost::Halo;
        }
        assert(dists@.take(i + 1).drop_last() =~= dists@.take(i as int));
        assert(dists@.take(i + 1).last() == dists@[i as int]);
        i = i + 1;
    }
    assert(dists@.take(dists.len() as int) =~= dists@);
    b
}

/// The size factor of an enlargement, in tenths (10, 18 or 90).
pub fn boost_tenths(b: CoreBoost) -> (f: u32)
    ensures
        f == boost_factor(b),
{
    match b {
        CoreBoost::Plain => 10,
        CoreBoost::Halo => 18,
        CoreBoost::Core => 90,
    }
}

/// Whether a globular cluster at this squared distance from the camera (an
/// encoding) is left out: beyond 450 squared.
pub fn cluster_culled(dist_sq: u32) -> (r: bool)
    ensures
        r == precedes(CLUSTER_CULL_SQ, dist_sq),
{
    lt(CLUSTER_CULL_SQ, dist_sq)
}

/// Whether a star at distance `dist` from a black hole (an encoding) is
/// tinted by its lensing, whose reach is `rayon_effet`: strictly inside it.
pub fn lensed(dist: u32, rayon_effet: u32) -> (r: bool)
    ensures
        r == precedes(dist, rayon_effet),
{
    lt(dist, rayon_effet)
}

/// Whether a far billboard star at `dist_cam` from the camera has begun to
/// fade out: strictly beyond `fade_debut` (encodings).
pub fn fading(dist_cam: u32, fade_debut: u32) -> (r: bool)
    ensures
        r == precedes(fade_debut, dist_cam),
{
    lt(fade_debut, dist_cam)
}

/// A star farther than 5 from every black hole keeps its size; one within 3
/// of the last black hole visited is in a core.
pub proof fn lemma_boost_needs_a_near_black_hole(dists: Seq<u32>)
    ensures
        (forall|i: int| 0 <= i < dists.len() ==> !precedes(#[trigger] dists[i], HALO_RADIUS))
            ==> boost_for(dists) == CoreBoost::Plain,
        dists.len() > 0 && precedes(dists.last(), CORE_RADIUS) ==> boost_for(dists)
            == CoreBoost::Core,
    decreases dists.len(),
{
    if dists.len() > 0 {
        lemma_boost_needs_a_near_black_hole(dists.drop_last());
        if forall|i: int| 0 <= i < dists.len() ==> !precedes(#[trigger] dists[i], HALO_RADIUS) {
            assert(!precedes(dists[dists.len() - 1], HALO_RADIUS));
            assert forall|i: int| 0 <= i < dists.drop_last().len() implies !precedes(
                #[trigger] dists.drop_last()[i],
                HALO_RADIUS,
            ) by {
                assert(dists.drop_last()[i] == dists[i]);
            }
        }
    }
}

/// A culled star is one beyond the culling distance; any star within it and
/// closer than the billboard distance gets a billboard.
pub proof fn lemma_lod_partition(dist_sq: u32, cull_sq: u32, billboard_sq: u32, dist_cam: u32)
    ensures
        lod_for(dist_sq, cull_sq, billboard_sq, dist_cam) == Lod::Culled <==> precedes(
            cull_sq,
            dist_sq,
        ),
        !precedes(cull_sq, dist_sq) && precedes(dist_sq, billboard_sq) ==> {
            let l = lod_for(dist_sq, cull_sq, billboard_sq, dist_cam);
            l == Lod::Near || l == Lod::Mid || l == Lod::Far
        },
{
}

/// The distance rule of the renderer, for any culling and billboard
/// distances: a star within the culling distance and at or beyond the
/// billboard distance is a point; closer than the billboard distance it is a
/// near billboard below 15 from the camera, a medium one below 40, and a
/// fading one farther out.
pub proof fn lemma_lod_by_distance(dist_sq: u32, cull_sq: u32, billboard_sq: u32, dist_cam: u32)
    ensures
        !precedes(cull_sq, dist_sq) && precedes_or_equals(billboard_sq, dist_sq) ==> lod_for(
            dist_sq,
            cull_sq,
            billboard_sq,
            dist_cam,
        ) == Lod::Point,
        !precedes(cull_sq, dist_sq) && precedes(dist_sq, billboard_sq) && precedes(
            dist_cam,
            NEAR_DISTANCE,
        ) ==> lod_for(dist_sq, cull_sq, billboard_sq, dist_cam) == Lod::Near,
        !precedes(cull_sq, dist_sq) && precedes(dist_sq, billboard_sq) && precedes_or_equals(
            NEAR_DISTANCE,
            dist_cam,
        ) && precedes(dist_cam, MID_DISTANCE) ==> lod_for(dist_sq, cull_sq, billboard_sq, dist_cam)
            == Lod::Mid,
        !precedes(cull_sq, dist_sq) && precedes(dist_sq, billboard_sq) && precedes_or_equals(
            MID_DISTANCE,
            dist_cam,
        ) ==> lod_for(dist_sq, cull_sq, billboard_sq, dist_cam) == Lod::Far,
{
}

/// A star is enlarged as a halo star when the last black hole visited is
/// within 5 but not within 3, and otherwise the earlier black holes decide.
pub proof fn lemma_boost_halo_and_earlier(dists: Seq<u32>)
    requires
        dists.len() > 0,
    ensures
        precedes_or_equals(CORE_RADIUS, dists.last()) && precedes(dists.last(), HALO_RADIUS)
            ==> boost_for(dists) == CoreBoost::Halo,
        !precedes(dists.last(), HALO_RADIUS) ==> boost_for(dists) == boost_for(dists.drop_last()),
{
}

} // verus!
