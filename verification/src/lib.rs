//! Color wheel rotation: rotate the hue of a hexadecimal RGB color.
//!
//! The pipeline is a chain of pure functions: a rotation amount is reduced
//! to [0, 360); a `#rrggbb` string is decoded to RGB channels; the channels
//! are converted to integer hue/saturation/lightness; the hue is rotated;
//! the result is converted back to RGB and formatted as `#RRGGBB`.
//!
//! All conversions work in exact integer arithmetic, truncating toward zero
//! at the same stages where the classical floating-point formulation of the
//! HSL formulas truncates, so every function has an exact contract.

use vstd::prelude::*;

pub mod degrees;
pub mod hex;
pub mod hsl;

verus! {

use crate::degrees::{CIRCLE_DEGREES, normalize_degrees, spec_normalize};
use crate::hex::{hex_to_rgb, rgb_to_hex, spec_hex_to_rgb, spec_rgb_to_hex};
use crate::hsl::{hsl_to_rgb, rgb_to_hsl, spec_hsl_to_rgb, spec_rgb_to_hsl};

/// The hue after rotation: the sum of hue and normalized rotation, wrapped
/// once past the full circle. The wrap fires only above 360, so a sum of
/// exactly 360 passes through unchanged, a deliberate boundary quirk;
/// the conversion back to RGB treats a hue of 360 as 0.
pub open spec fn spec_rotate_hue(h: int, nd: int) -> int {
    if h + nd > 360 {
        h + nd - 360
    } else {
        h + nd
    }
}

/// The whole pipeline: normalize the rotation, decode the color, convert
/// to HSL, rotate the hue, convert back to RGB, and re-encode.
pub open spec fn spec_spin(d: int, s: Seq<char>) -> Seq<char> {
    let nd = spec_normalize(d);
    let rgb = spec_hex_to_rgb(s);
    let hsl = spec_rgb_to_hsl(rgb.0, rgb.1, rgb.2);
    let h2 = spec_rotate_hue(hsl.0, nd);
    let rgb2 = spec_hsl_to_rgb(h2, hsl.1, hsl.2);
    spec_rgb_to_hex(rgb2.0, rgb2.1, rgb2.2)
}

/// Rotates the hue of a hex color by a signed number of degrees and
/// returns the resulting color as `#` plus six uppercase hex digits.
/// A malformed color string falls back to black.
pub fn spin(degrees: i32, color: &str) -> (out: String)
    ensures
        out@ == spec_spin(degrees as int, color@),
{
    let spin_degrees = normalize_degrees(degrees);
    let (r, g, b) = hex_to_rgb(color);
    let (h, s, l) = rgb_to_hsl(r, g, b);

    let mut hspin = h + spin_degrees;
    if hspin > CIRCLE_DEGREES {
        hspin = hspin - CIRCLE_DEGREES;
    }

    let (sr, sg, sb) = hsl_to_rgb(hspin, s, l);
    rgb_to_hex(sr, sg, sb)
}

/// Rotating by zero degrees cannot tell a color string from its canonical
/// re-encoding: decoding, re-encoding and running the pipeline again gives
/// the same result as running it once, because formatting loses nothing.
pub proof fn lemma_spin_zero_stable(s: Seq<char>)
    ensures
        ({
            let rgb = spec_hex_to_rgb(s);
            spec_spin(0, spec_rgb_to_hex(rgb.0, rgb.1, rgb.2)) == spec_spin(0, s)
        }),
{
    let rgb = spec_hex_to_rgb(s);
    crate::hex::lemma_hex_to_rgb_bounds(s);
    crate::hex::lemma_hex_round_trip(rgb.0, rgb.1, rgb.2);
}

} // verus!
