//! Harvard spectral classes, from the hottest to the coolest.
use vstd::prelude::*;

use crate::color::Rgba;
use crate::ieee_order::{is_nan, lt, order_key, precedes, sign_set};

verus! {

/// Spectral class of a star (Harvard classification).
#[derive(Clone, Copy, Debug, PartialEq, Eq, Structural)]
pub enum StarType {
    /// Blue-violet, rare and massive.
    O,
    /// Blue.
    B,
    /// Blue-white.
    A,
    /// Warm white.
    F,
    /// Yellow, like the Sun.
    G,
    /// Orange.
    K,
    /// Red; most stars of a galaxy.
    M,
}

/// Encoding of `0.0001_f32`: rolls below it are class O.
pub const ROLL_O: u32 = 0x38d1_b717;

/// Encoding of `0.0014_f32`: rolls below it (and not O) are class B.
pub const ROLL_B: u32 = 0x3ab7_8034;

/// Encoding of `0.0074_f32`: rolls below it (and not B) are class A.
pub const ROLL_A: u32 = 0x3bf2_7bb3;

/// Encoding of `0.0374_f32`: rolls below it (and not A) are class F.
pub const ROLL_F: u32 = 0x3d19_30be;

/// Encoding of `0.113_f32`: rolls below it (and not F) are class G.
pub const ROLL_G: u32 = 0x3de7_6c8b;

/// Encoding of `0.234_f32`: rolls below it (and not G) are class K.
pub const ROLL_K: u32 = 0x3e6f_9db2;

/// Encoding of `0.004_f32`, the upper end of the rolls drawn for the
/// galactic bulge.
pub const BULGE_ROLL_END: u32 = 0x3b83_126f;

/// Encoding of `0.15_f32`: the reinforced galactic cores hold class O stars
/// for rolls below it, class B stars otherwise.
pub const CORE_ROLL_O: u32 = 0x3e19_999a;

/// Position of the class on the temperature scale, 0 for O up to 6 for M.
pub open spec fn rank(t: StarType) -> int {
    match t {
        StarType::O => 0,
        StarType::B => 1,
        StarType::A => 2,
        StarType::F => 3,
        StarType::G => 4,
        StarType::K => 5,
        StarType::M => 6,
    }
}

/// The display colour of each class.
pub open spec fn class_color(t: StarType) -> Rgba {
    match t {
        StarType::O => Rgba { r: 155, g: 176, b: 255, a: 255 },
        StarType::B => Rgba { r: 170, g: 191, b: 255, a: 255 },
        StarType::A => Rgba { r: 213, g: 224, b: 255, a: 255 },
        StarType::F => Rgba { r: 248, g: 247, b: 255, a: 255 },
        StarType::G => Rgba { r: 255, g: 244, b: 200, a: 255 },
        StarType::K => Rgba { r: 255, g: 210, b: 140, a: 255 },
        StarType::M => Rgba { r: 255, g: 150, b: 80, a: 255 },
    }
}

/// The nominal size of each class, in tenths of a point.
pub open spec fn class_size(t: StarType) -> int {
    match t {
        StarType::O => 140,
        StarType::B => 110,
        StarType::A => 90,
        StarType::F => 75,
        StarType::G => 60,
        StarType::K => 50,
        StarType::M => 35,
    }
}

/// The billboard size of each class, in tenths of a scene unit.
pub open spec fn class_billboard_size(t: StarType) -> int {
    match t {
        StarType::O => 22,
        StarType::B => 18,
        StarType::A => 14,
        StarType::F => 11,
        StarType::G => 9,
        StarType::K => 7,
        StarType::M => 5,
    }
}

/// The class that a roll falls in: the cumulative distribution is cut at
/// 0.0001, 0.0014, 0.0074, 0.0374, 0.113 and 0.234 (an approximate initial
/// mass function, so that most stars are M dwarfs). A roll that is no
/// smaller than any cut, a NaN among them, is class M.
pub open spec fn class_of_roll(roll: u32) -> StarType {
    if precedes(roll, ROLL_O) {
        StarType::O
    } else if precedes(roll, ROLL_B) {
        StarType::B
    } else if precedes(roll, ROLL_A) {
        StarType::A
    } else if precedes(roll, ROLL_F) {
        StarType::F
    } else if precedes(roll, ROLL_G) {
        StarType::G
    } else if precedes(roll, ROLL_K) {
        StarType::K
    } else {
        StarType::M
    }
}

impl StarType {
    /// The display colour of the class.
    pub fn color(&self) -> (c: Rgba)
        ensures
            c == class_color(*self),
    {
        match self {
            StarType::O => Rgba::new(155, 176, 255, 255),
            StarType::B => Rgba::new(170, 191, 255, 255),
            StarType::A => Rgba::new(213, 224, 255, 255),
            StarType::F => Rgba::new(248, 247, 255, 255),
            StarType::G => Rgba::new(255, 244, 200, 255),
            StarType::K => Rgba::new(255, 210, 140, 255),
            StarType::M => Rgba::new(255, 150, 80, 255),
        }
    }

    /// The nominal size of the class, in tenths of a point
    /// (O is 14.0, M is 3.5).
    pub fn size(&self) -> (s: u32)
        ensures
            s == class_size(*self),
    {
        match self {
            StarType::O => 140,
            StarType::B => 110,
            StarType::A => 90,
            StarType::F => 75,
            StarType::G => 60,
            StarType::K => 50,
            StarType::M => 35,
        }
    }

    /// The size of the class's billboard, in tenths of a scene unit
    /// (O is 2.2, M is 0.5).
    pub fn billboard_size(&self) -> (s: u32)
        ensures
            s == class_billboard_size(*self),
    {
        match self {
            StarType::O => 22,
            StarType::B => 18,
            StarType::A => 14,
            StarType::F => 11,
            StarType::G => 9,
            StarType::K => 7,
            StarType::M => 5,
        }
    }

    /// The class of one of the stars added to a galactic core: O for a roll
    /// below 0.15, B otherwise (the roll is an encoding).
    pub fn core_from_roll(roll: u32) -> (t: StarType)
        ensures
            t == (if precedes(roll, CORE_ROLL_O) {
                StarType::O
            } else {
                StarType::B
            }),
    {
        if lt(roll, CORE_ROLL_O) {
            StarType::O
        } else {
            StarType::B
        }
    }

    /// The class of a star from a roll of the cumulative distribution; the
    /// roll is a binary32 value given by its encoding.
    pub fn from_roll(roll: u32) -> (t: StarType)
        ensures
            t == class_of_roll(roll),
    {
        if lt(roll, ROLL_O) {
            StarType::O
        } else if lt(roll, ROLL_B) {
            StarType::B
        } else if lt(roll, ROLL_A) {
            StarType::A
        } else if lt(roll, ROLL_F) {
            StarType::F
        } else if lt(roll, ROLL_G) {
            StarType::G
        } else if lt(roll, ROLL_K) {
            StarType::K
        } else {
            StarType::M
        }
    }
}

/// A larger roll never gives a hotter class: the classes are laid out along
/// the roll axis from O to M.
pub proof fn lemma_class_of_roll_monotone(a: u32, b: u32)
    requires
        !is_nan(a),
        !is_nan(b),
        order_key(a) <= order_key(b),
    ensures
        rank(class_of_roll(a)) <= rank(class_of_roll(b)),
{
}

/// Every roll below 0.0001, the negative ones among them, is class O, and a
/// NaN roll is class M.
pub proof fn lemma_class_of_roll_extremes(roll: u32)
    ensures
        precedes(roll, ROLL_O) ==> class_of_roll(roll) == StarType::O,
        !is_nan(roll) && sign_set(roll) ==> class_of_roll(roll) == StarType::O,
        is_nan(roll) ==> class_of_roll(roll) == StarType::M,
{
}

/// The bulge draws its rolls from [0, 0.004): those are always hot stars,
/// of class O, B or A.
pub proof fn lemma_bulge_rolls_are_hot(roll: u32)
    requires
        !is_nan(roll),
        0 <= order_key(roll),
        precedes(roll, BULGE_ROLL_END),
    ensures
        class_of_roll(roll) == StarType::O || class_of_roll(roll) == StarType::B
            || class_of_roll(roll) == StarType::A,
{
}

/// Hotter classes are drawn larger: both sizes strictly decrease from O to M.
pub proof fn lemma_sizes_decrease_with_temperature(s: StarType, t: StarType)
    requires
        rank(s) < rank(t),
    ensures
        class_size(s) > class_size(t),
        class_billboard_size(s) > class_billboard_size(t),
{
}

} // verus!
