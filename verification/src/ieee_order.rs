//! The order of IEEE 754 binary32 values, read off their 32-bit encodings.
//!
//! An encoding is a sign bit followed by a 31-bit magnitude. Among values
//! that are not NaN, a larger magnitude means a value farther from zero, so
//! the values are ordered like the signed integers "magnitude, negated when
//! the sign bit is set". Both zeros get the key 0 and compare equal. A NaN
//! (magnitude above that of infinity) is unordered: every comparison with it
//! is false.
use vstd::prelude::*;

verus! {

/// Encodings at or above this have their sign bit set.
pub const SIGN_BIT: u32 = 0x8000_0000;

/// The magnitude of positive infinity; magnitudes above it are NaNs.
pub const INFINITY_MAGNITUDE: u32 = 0x7f80_0000;

pub open spec fn sign_set(bits: u32) -> bool {
    bits >= SIGN_BIT
}

pub open spec fn magnitude(bits: u32) -> int {
    if sign_set(bits) {
        bits - SIGN_BIT
    } else {
        bits as int
    }
}

pub open spec fn is_nan(bits: u32) -> bool {
    magnitude(bits) > INFINITY_MAGNITUDE
}

/// The position of a non-NaN encoding on the number line.
pub open spec fn order_key(bits: u32) -> int {
    if sign_set(bits) {
        -magnitude(bits)
    } else {
        magnitude(bits)
    }
}

/// `a < b` on the values the encodings stand for.
pub open spec fn precedes(a: u32, b: u32) -> bool {
    !is_nan(a) && !is_nan(b) && order_key(a) < order_key(b)
}

/// `a <= b` on the values the encodings stand for.
pub open spec fn precedes_or_equals(a: u32, b: u32) -> bool {
    !is_nan(a) && !is_nan(b) && order_key(a) <= order_key(b)
}

/// What `x.clamp(lo, hi)` gives on encodings: `lo` below the range, `hi`
/// above it, `x` itself otherwise (a NaN stays as it is).
pub open spec fn clamped(x: u32, lo: u32, hi: u32) -> u32 {
    if precedes(x, lo) {
        lo
    } else if precedes(hi, x) {
        hi
    } else {
        x
    }
}

/// Whether the encoding is a NaN.
pub fn nan(bits: u32) -> (r: bool)
    ensures
        r == is_nan(bits),
{
    let m: u32 = if bits >= SIGN_BIT {
        bits - SIGN_BIT
    } else {
        bits
    };
    m > INFINITY_MAGNITUDE
}

fn key(bits: u32) -> (k: i64)
    ensures
        k == order_key(bits),
{
    if bits >= SIGN_BIT {
        let m: u32 = bits - SIGN_BIT;
        -(m as i64)
    } else {
        bits as i64
    }
}

/// `a < b` on binary32 values given by their encodings.
pub fn lt(a: u32, b: u32) -> (r: bool)
    ensures
        r == precedes(a, b),
{
    if nan(a) || nan(b) {
        false
    } else {
        key(a) < key(b)
    }
}

/// `a <= b` on binary32 values given by their encodings.
pub fn le(a: u32, b: u32) -> (r: bool)
    ensures
        r == precedes_or_equals(a, b),
{
    if nan(a) || nan(b) {
        false
    } else {
        key(a) <= key(b)
    }
}

/// `a > b` on binary32 values given by their encodings.
pub fn gt(a: u32, b: u32) -> (r: bool)
    ensures
        r == precedes(b, a),
{
    lt(b, a)
}

/// `a >= b` on binary32 values given by their encodings.
pub fn ge(a: u32, b: u32) -> (r: bool)
    ensures
        r == precedes_or_equals(b, a),
{
    le(b, a)
}

/// `x.clamp(lo, hi)` on encodings. Like `f32::clamp`, it is defined only for
/// bounds that are not NaN and with `lo <= hi`.
pub fn clamp(x: u32, lo: u32, hi: u32) -> (r: u32)
    requires
        precedes_or_equals(lo, hi),
    ensures
        r == clamped(x, lo, hi),
        !is_nan(x) ==> precedes_or_equals(lo, r) && precedes_or_equals(r, hi),
        is_nan(x) ==> r == x,
{
    if lt(x, lo) {
        lo
    } else if lt(hi, x) {
        hi
    } else {
        x
    }
}

/// The order on non-NaN encodings is a total preorder: any two are
/// comparable, and it is transitive.
pub proof fn lemma_order_total_and_transitive(a: u32, b: u32, c: u32)
    requires
        !is_nan(a),
        !is_nan(b),
        !is_nan(c),
    ensures
        precedes_or_equals(a, b) || precedes(b, a),
        precedes_or_equals(a, b) && precedes_or_equals(b, c) ==> precedes_or_equals(a, c),
        precedes(a, b) ==> !precedes_or_equals(b, a),
{
}

/// The two zeros compare equal, and NaN compares with nothing.
pub proof fn lemma_zeros_equal_nan_unordered(x: u32, n: u32)
    requires
        is_nan(n),
    ensures
        precedes_or_equals(0, SIGN_BIT) && precedes_or_equals(SIGN_BIT, 0),
        !precedes(x, n) && !precedes(n, x),
        !precedes_or_equals(x, n) && !precedes_or_equals(n, x),
{
}

} // verus!
