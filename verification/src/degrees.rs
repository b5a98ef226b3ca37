//! Reduction of an arbitrary signed rotation amount to one turn of the wheel.

use vstd::prelude::*;

verus! {

/// One full turn of the color wheel, in degrees.
pub const CIRCLE_DEGREES: i32 = 360;

/// The normalized form of a rotation amount `d`.
///
/// For a non-negative `d` this is `d` modulo 360. For a negative `d` it is
/// the truncating remainder plus 360, which agrees with `d` modulo 360
/// except when `d` is a negative multiple of 360: there the result is 360,
/// not 0, a deliberate boundary quirk of this normalizer.
pub open spec fn spec_normalize(d: int) -> int {
    if d < 0 && d % 360 == 0 {
        360
    } else {
        d % 360
    }
}

/// Reduces a signed number of degrees to a single turn, per `spec_normalize`.
pub fn normalize_degrees(degrees: i32) -> (r: i32)
    ensures
        r == spec_normalize(degrees as int),
        0 <= r <= 360,
{
    if degrees < 0 {
        (degrees % CIRCLE_DEGREES) + CIRCLE_DEGREES
    } else {
        degrees % CIRCLE_DEGREES
    }
}

/// The normalized rotation lies in [0, 360] and is congruent to the input
/// modulo 360; it reaches 360 only for a negative multiple of 360, so on
/// every other input it lies in [0, 360). Inputs within one turn of zero
/// are left as they are, up to the wrap of negative amounts.
pub proof fn lemma_normalize_range(d: int)
    ensures
        0 <= spec_normalize(d) <= 360,
        spec_normalize(d) % 360 == d % 360,
        (d >= 0 || d % 360 != 0) ==> spec_normalize(d) < 360,
        0 <= d < 360 ==> spec_normalize(d) == d,
        -360 < d < 0 ==> spec_normalize(d) == d + 360,
{
}

} // verus!
