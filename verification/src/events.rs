//! Deep-sky events placed between the galaxies: which ones, in which order,
//! and how many member stars they carry.
use vstd::prelude::*;

use rand::rngs::StdRng;

use crate::ieee_order::{ge, precedes_or_equals};
use crate::rng::draw_usize_through;

verus! {

/// Kind of a deep-sky event.
#[derive(Clone, Copy, Debug, PartialEq, Eq, Structural)]
pub enum EventType {
    /// A pulsing supernova.
    Supernova,
    /// A blinking pulsar.
    Pulsar,
    /// A globular cluster of 40 to 80 stars.
    AmasGlobulaire,
    /// A binary star.
    EtoileBinaire,
    /// A quasar with a triple halo.
    Quasar,
}

/// Fewest stars in a globular cluster.
pub const CLUSTER_MIN: usize = 40;

/// Most stars in a globular cluster.
pub const CLUSTER_MAX: usize = 80;

/// Encoding of `30.0_f32`: an event is placed at least this far from every
/// galaxy centre.
pub const CLEARANCE: u32 = 0x41f0_0000;

/// The kind that a quota entry's index stands for; every index from 4 on is
/// a quasar.
pub open spec fn kind_for(type_idx: u8) -> EventType {
    if type_idx == 0 {
        EventType::Supernova
    } else if type_idx == 1 {
        EventType::Pulsar
    } else if type_idx == 2 {
        EventType::AmasGlobulaire
    } else if type_idx == 3 {
        EventType::EtoileBinaire
    } else {
        EventType::Quasar
    }
}

/// How many events of each kind the scene holds, in the fixed order that
/// keeps a seed reproducible: 12 supernovae, 10 pulsars, 8 globular
/// clusters, 8 binary stars and 2 quasars.
pub open spec fn quota_spec() -> Seq<(u8, u32)> {
    seq![(0u8, 12u32), (1u8, 10u32), (2u8, 8u32), (3u8, 8u32), (4u8, 2u32)]
}

/// The events that a quota asks for, entry after entry.
pub open spec fn expand(q: Seq<(u8, u32)>) -> Seq<EventType>
    decreases q.len(),
{
    if q.len() == 0 {
        Seq::empty()
    } else {
        expand(q.drop_last()) + Seq::new(q.last().1 as nat, |i: int| kind_for(q.last().0))
    }
}

/// The order in which the scene's events are generated.
pub open spec fn schedule_spec() -> Seq<EventType> {
    expand(quota_spec())
}

/// How many member stars an event of a kind carries, given the size drawn
/// for a globular cluster.
pub open spec fn member_count_spec(kind: EventType, cluster_size: usize) -> nat {
    match kind {
        EventType::AmasGlobulaire => cluster_size as nat,
        EventType::EtoileBinaire => 2,
        _ => 0,
    }
}

/// The kind that a quota entry's index stands for.
pub fn kind_of(type_idx: u8) -> (k: EventType)
    ensures
        k == kind_for(type_idx),
{
    match type_idx {
        0 => EventType::Supernova,
        1 => EventType::Pulsar,
        2 => EventType::AmasGlobulaire,
        3 => EventType::EtoileBinaire,
        _ => EventType::Quasar,
    }
}

/// The quota table: kind index and number of events, in generation order.
pub fn quota() -> (q: Vec<(u8, u32)>)
    ensures
        q@ == quota_spec(),
{
    vec![(0u8, 12u32), (1u8, 10u32), (2u8, 8u32), (3u8, 8u32), (4u8, 2u32)]
}

/// The kinds of all the scene's events, in the order in which they are
/// generated.
pub fn event_schedule() -> (s: Vec<EventType>)
    ensures
        s@ == schedule_spec(),
{
    let q = quota();
    let mut s: Vec<EventType> = Vec::new();
    let mut k: usize = 0;
    while k < q.len()
        invariant
            q@ == quota_spec(),
            k <= q.len(),
            s@ == expand(q@.take(k as int)),
        decreases q.len() - k,
    {
        let (type_idx, nb) = q[k];
        let kind = kind_of(type_idx);
        let ghost before = s@;
        let mut j: u32 = 0;
        while j < nb
            invariant
                j <= nb,
                s@ == before + Seq::new(j as nat, |i: int| kind),
            decreases nb - j,
        {
            s.push(kind);
            j = j + 1;
            assert(s@ =~= before + Seq::new(j as nat, |i: int| kind));
        }
        assert(q@.take(k + 1).drop_last() =~= q@.take(k as int));
        assert(q@.take(k + 1).last() == q@[k as int]);
        k = k + 1;
    }
    assert(q@.take(q.len() as int) =~= q@);
    s
}

/// How many member stars an event of a kind carries: a cluster's drawn
/// size, two for a binary star, none otherwise.
pub fn member_count(kind: EventType, cluster_size: usize) -> (n: usize)
    ensures
        n == member_count_spec(kind, cluster_size),
{
    match kind {
        EventType::AmasGlobulaire => cluster_size,
        EventType::EtoileBinaire => 2,
        _ => 0,
    }
}

/// Whether a candidate event position is far enough from every galaxy
/// centre, given its distances to them (encodings): no distance below 30.
/// A NaN distance rules the position out.
pub fn far_from_all(dists: &Vec<u32>) -> (ok: bool)
    ensures
        ok == forall|i: int| 0 <= i < dists@.len() ==> precedes_or_equals(CLEARANCE, #[trigger] dists@[i]),
{
    let mut i: usize = 0;
    while i < dists.len()
        invariant
            i <= dists.len(),
            forall|j: int| 0 <= j < i ==> precedes_or_equals(CLEARANCE, #[trigger] dists@[j]),
        decreases dists.len() - i,
    {
        if !ge(dists[i], CLEARANCE) {
            return false;
        }
        i = i + 1;
    }
    true
}

/// The number of stars of a globular cluster: one draw in `40..=80`.
pub fn draw_cluster_size(rng: &mut StdRng) -> (n: usize)
    ensures
        CLUSTER_MIN <= n <= CLUSTER_MAX,
{
    draw_usize_through(rng, CLUSTER_MIN, CLUSTER_MAX)
}

/// A globular cluster has exactly as many members as its drawn size, a
/// binary star two, and the other events none; every quota index from 4 on
/// stands for a quasar.
pub proof fn lemma_member_counts(n: usize, type_idx: u8)
    ensures
        member_count_spec(EventType::AmasGlobulaire, n) == n,
        member_count_spec(EventType::EtoileBinaire, n) == 2,
        member_count_spec(EventType::Supernova, n) == 0,
        member_count_spec(EventType::Pulsar, n) == 0,
        member_count_spec(EventType::Quasar, n) == 0,
        type_idx >= 4 ==> kind_for(type_idx) == EventType::Quasar,
{
}

/// The schedule holds 40 events: 12 supernovae, then 10 pulsars, then 8
/// globular clusters, then 8 binary stars, then 2 quasars.
pub proof fn lemma_schedule_layout()
    ensures
        schedule_spec().len() == 40,
        forall|i: int| 0 <= i < 12 ==> schedule_spec()[i] == EventType::Supernova,
        forall|i: int| 12 <= i < 22 ==> schedule_spec()[i] == EventType::Pulsar,
        forall|i: int| 22 <= i < 30 ==> schedule_spec()[i] == EventType::AmasGlobulaire,
        forall|i: int| 30 <= i < 38 ==> schedule_spec()[i] == EventType::EtoileBinaire,
        forall|i: int| 38 <= i < 40 ==> schedule_spec()[i] == EventType::Quasar,
{
    let q = quota_spec();
    reveal_with_fuel(expand, 6);
    assert(q.drop_last().drop_last().drop_last().drop_last().drop_last() =~= Seq::<(u8, u32)>::empty());
    assert(q.drop_last().drop_last().drop_last().drop_last() =~= seq![(0u8, 12u32)]);
    assert(q.drop_last().drop_last().drop_last() =~= seq![(0u8, 12u32), (1u8, 10u32)]);
    assert(q.drop_last().drop_last() =~= seq![(0u8, 12u32), (1u8, 10u32), (2u8, 8u32)]);
    assert(q.drop_last() =~= seq![(0u8, 12u32), (1u8, 10u32), (2u8, 8u32), (3u8, 8u32)]);
}

} // verus!
