//! Conversion between integer RGB channels and integer hue / saturation /
//! lightness, in both directions.
//!
//! The classical HSL formulas are stated over fractions of the form
//! `channel / 255`, `percent / 100` and `degrees / 60`, with the result of
//! each stage truncated toward zero. Every quantity here is such a fraction
//! scaled up to an integer over a common denominator, so each truncation is
//! one exact integer division and nothing is approximated.

use vstd::prelude::*;

verus! {

/// Truncating division toward zero for a positive divisor: the value an
/// integer cast of the real quotient `a / b` produces.
pub open spec fn div_trunc(a: int, b: int) -> int {
    if a >= 0 {
        a / b
    } else {
        -((-a) / b)
    }
}

/// The largest of three channel values.
pub open spec fn max3(a: int, b: int, c: int) -> int {
    if a >= b && a >= c {
        a
    } else if b >= c {
        b
    } else {
        c
    }
}

/// The smallest of three channel values.
pub open spec fn min3(a: int, b: int, c: int) -> int {
    if a <= b && a <= c {
        a
    } else if b <= c {
        b
    } else {
        c
    }
}

/// Lightness as an integer percentage: the midpoint `(max + min) / 2` of
/// the extreme channel fractions, scaled to percent and truncated, which
/// over the common denominator 255 is `50 * (max + min) / 255`.
pub open spec fn spec_lightness(r: int, g: int, b: int) -> int {
    50 * (max3(r, g, b) + min3(r, g, b)) / 255
}

/// Hue in degrees for a chromatic color (`max > min`): the standard
/// piecewise formula selected on which channel is the maximum, scaled by
/// 60, truncated toward zero, and wrapped into the non-negative range.
/// Only the red branch can be negative before the wrap; the factor 255
/// cancels from every quotient, leaving plain channel differences.
pub open spec fn spec_hue(r: int, g: int, b: int) -> int {
    let mx = max3(r, g, b);
    let mn = min3(r, g, b);
    let rng = mx - mn;
    let h0 = if r == mx {
        div_trunc(60 * (g - b), rng)
    } else if g == mx {
        (60 * (b - r) + 120 * rng) / rng
    } else {
        (60 * (r - g) + 240 * rng) / rng
    };
    if h0 < 0 {
        h0 + 360
    } else {
        h0
    }
}

/// Saturation as an integer percentage for a chromatic color: the channel
/// range scaled against lightness, `range / (max + min)` below 50%
/// lightness and `range / (2 - max - min)` at or above it, truncated.
pub open spec fn spec_saturation(r: int, g: int, b: int) -> int {
    let mx = max3(r, g, b);
    let mn = min3(r, g, b);
    let rng = mx - mn;
    if spec_lightness(r, g, b) < 50 {
        100 * rng / (mx + mn)
    } else {
        100 * rng / (510 - (mx + mn))
    }
}

/// The HSL triple of an RGB triple: achromatic colors (all channels equal)
/// take hue and saturation zero.
pub open spec fn spec_rgb_to_hsl(r: int, g: int, b: int) -> (int, int, int) {
    if max3(r, g, b) == min3(r, g, b) {
        (0, 0, spec_lightness(r, g, b))
    } else {
        (spec_hue(r, g, b), spec_saturation(r, g, b), spec_lightness(r, g, b))
    }
}

/// Chroma scaled by 5000: chroma is `(1 - |2*(l/100) - 1|) * (s/100)`,
/// and `1 - |l - 50| / 50` collapses to `l / 50` below 50% lightness and
/// `(100 - l) / 50` above it.
pub open spec fn spec_chroma_num(s: int, l: int) -> int {
    (if l < 50 {
        l
    } else {
        100 - l
    }) * s
}

/// The hue-dependent factor of the intermediate channel, scaled by 60:
/// `60 * (1 - |((h/60) mod 2) - 1|)`, a triangle wave over each 120-degree
/// period of the hue.
pub open spec fn spec_wedge(h: int) -> int {
    if h % 120 < 60 {
        h % 120
    } else {
        120 - h % 120
    }
}

/// The channel that receives chroma plus the match offset:
/// `trunc((C + M) * 255)` where `C = cn/5000` and `M = (100*l - cn)/10000`.
pub open spec fn spec_channel_high(s: int, l: int) -> int {
    255 * (spec_chroma_num(s, l) + 100 * l) / 10000
}

/// The channel that receives the intermediate value plus the match offset:
/// `trunc((X + M) * 255)` where `X = cn * wedge(h) / 300000`.
pub open spec fn spec_channel_mid(h: int, s: int, l: int) -> int {
    255 * (spec_chroma_num(s, l) * spec_wedge(h) + 30 * (100 * l - spec_chroma_num(s, l)))
        / 300000
}

/// The channel that receives only the match offset: `trunc(M * 255)`.
pub open spec fn spec_channel_low(s: int, l: int) -> int {
    255 * (100 * l - spec_chroma_num(s, l)) / 10000
}

/// The RGB triple of an HSL triple: the three channel levels distributed
/// over the six 60-degree sectors of the hue.
pub open spec fn spec_hsl_to_rgb(h: int, s: int, l: int) -> (int, int, int) {
    let hi = spec_channel_high(s, l);
    let md = spec_channel_mid(h, s, l);
    let lo = spec_channel_low(s, l);
    if h < 60 {
        (hi, md, lo)
    } else if h < 120 {
        (md, hi, lo)
    } else if h < 180 {
        (lo, hi, md)
    } else if h < 240 {
        (lo, md, hi)
    } else if h < 300 {
        (md, lo, hi)
    } else {
        (hi, lo, md)
    }
}

/// `lo <= a / b <= hi` follows from the same bounds on `a` as multiples
/// of the positive divisor `b`.
proof fn lemma_div_bounds(a: int, b: int, lo: int, hi: int)
    requires
        0 < b,
        lo * b <= a,
        a <= hi * b,
    ensures
        lo <= a / b <= hi,
{
    vstd::arithmetic::mul::lemma_mul_is_commutative(lo, b);
    vstd::arithmetic::mul::lemma_mul_is_commutative(hi, b);
    vstd::arithmetic::div_mod::lemma_multiply_divide_le(a, b, hi);
    vstd::arithmetic::div_mod::lemma_div_pos_is_pos(a - lo * b, b);
    vstd::arithmetic::div_mod::lemma_hoist_over_denominator(a - lo * b, lo, b as nat);
}

/// Converts integer RGB channels to integer hue, saturation and lightness.
#[verifier::rlimit(50)]
pub fn rgb_to_hsl(red: i32, green: i32, blue: i32) -> (hsl: (i32, i32, i32))
    requires
        0 <= red <= 255,
        0 <= green <= 255,
        0 <= blue <= 255,
    ensures
        ({
            let (h, s, l) = spec_rgb_to_hsl(red as int, green as int, blue as int);
            hsl.0 == h && hsl.1 == s && hsl.2 == l
        }),
        0 <= hsl.0 < 360,
        0 <= hsl.1 <= 100,
        0 <= hsl.2 <= 100,
{
    let mx = if red >= green && red >= blue {
        red
    } else if green >= blue {
        green
    } else {
        blue
    };
    let mn = if red <= green && red <= blue {
        red
    } else if green <= blue {
        green
    } else {
        blue
    };
    let rng = mx - mn;

    let l = (50 * (mx + mn)) / 255;
    proof {
        lemma_div_bounds(50 * (mx + mn), 255, 0, 100);
    }
    if rng == 0 {
        return (0, 0, l);
    }

    let mut h: i32;
    if red == mx {
        if green >= blue {
            h = (60 * (green - blue)) / rng;
            proof {
                lemma_div_bounds(60 * (green - blue), rng as int, 0, 60);
            }
        } else {
            let back = (60 * (blue - green)) / rng;
            proof {
                lemma_div_bounds(60 * (blue - green), rng as int, 0, 60);
            }
            h = -back;
        }
    } else if green == mx {
        h = (60 * (blue - red) + 120 * rng) / rng;
        proof {
            lemma_div_bounds(60 * (blue - red) + 120 * rng, rng as int, 60, 180);
        }
    } else {
        h = (60 * (red - green) + 240 * rng) / rng;
        proof {
            lemma_div_bounds(60 * (red - green) + 240 * rng, rng as int, 180, 300);
        }
    }
    if h < 0 {
        h = h + 360;
    }

    let s: i32;
    if l < 50 {
        s = (100 * rng) / (mx + mn);
        proof {
            lemma_div_bounds(100 * rng, (mx + mn) as int, 0, 100);
        }
    } else {
        s = (100 * rng) / (510 - (mx + mn));
        proof {
            lemma_div_bounds(100 * rng, 510 - (mx + mn) as int, 0, 100);
        }
    }

    (h, s, l)
}

/// Converts integer hue, saturation and lightness back to integer RGB
/// channels. A hue of exactly 360 is accepted: the wedge factor vanishes
/// there, so it yields the same channels as a hue of 0.
pub fn hsl_to_rgb(h: i32, s: i32, l: i32) -> (rgb: (i32, i32, i32))
    requires
        0 <= h <= 360,
        0 <= s <= 100,
        0 <= l <= 100,
    ensures
        ({
            let (r, g, b) = spec_hsl_to_rgb(h as int, s as int, l as int);
            rgb.0 == r && rgb.1 == g && rgb.2 == b
        }),
        0 <= rgb.0 <= 255,
        0 <= rgb.1 <= 255,
        0 <= rgb.2 <= 255,
{
    let cf = if l < 50 {
        l
    } else {
        100 - l
    };
    proof {
        assert(0 <= cf * s <= 5000 && cf * s <= 100 * l && cf * s + 100 * l <= 10000)
            by (nonlinear_arith)
            requires
                0 <= s <= 100,
                0 <= l <= 100,
                0 <= cf <= 50,
                cf <= l,
                l < 50 ==> cf == l,
                l >= 50 ==> cf == 100 - l,
        ;
    }
    let cn = cf * s;
    let hm = h % 120;
    let w = if hm < 60 {
        hm
    } else {
        120 - hm
    };
    let m_num = 100 * l - cn;

    let hi = (255 * (cn + 100 * l)) / 10000;
    proof {
        lemma_div_bounds(255 * (cn + 100 * l), 10000, 0, 255);
    }
    proof {
        assert(0 <= cn * w <= 60 * cn) by (nonlinear_arith)
            requires
                0 <= cn,
                0 <= w <= 60,
        ;
    }
    let mid_num = cn * w + 30 * m_num;
    let md = (255 * mid_num) / 300000;
    proof {
        lemma_div_bounds(255 * mid_num, 300000, 0, 255);
    }
    let lo = (255 * m_num) / 10000;
    proof {
        lemma_div_bounds(255 * m_num, 10000, 0, 255);
    }

    if h < 60 {
        (hi, md, lo)
    } else if h < 120 {
        (md, hi, lo)
    } else if h < 180 {
        (lo, hi, md)
    } else if h < 240 {
        (lo, md, hi)
    } else if h < 300 {
        (md, lo, hi)
    } else {
        (hi, lo, md)
    }
}

} // verus!
