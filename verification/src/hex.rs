//! Decoding of `#rrggbb` color strings and formatting of RGB channels
//! back to `#RRGGBB`.

use vstd::prelude::*;

verus! {

/// A character that may appear in a hex color: `0`-`9`, `a`-`f`, `A`-`F`.
pub open spec fn is_hex_digit(c: char) -> bool {
    ('0' <= c && c <= '9') || ('a' <= c && c <= 'f') || ('A' <= c && c <= 'F')
}

/// The numeric value of a hex digit, in [0, 16).
pub open spec fn hex_digit_value(c: char) -> int {
    if '0' <= c && c <= '9' {
        c as int - '0' as int
    } else if 'a' <= c && c <= 'f' {
        10 + c as int - 'a' as int
    } else {
        10 + c as int - 'A' as int
    }
}

/// A well-formed hex color string: `#` followed by exactly six hex digits.
pub open spec fn is_hex_color(s: Seq<char>) -> bool {
    &&& s.len() == 7
    &&& s[0] == '#'
    &&& forall|i: int| 1 <= i < 7 ==> is_hex_digit(#[trigger] s[i])
}

/// The channel value encoded by a pair of hex digits, high digit first.
pub open spec fn channel_value(hi: char, lo: char) -> int {
    16 * hex_digit_value(hi) + hex_digit_value(lo)
}

/// The RGB triple a string decodes to: its three channel pairs when it is a
/// well-formed hex color, and black otherwise (the silent fallback the
/// compatibility decoder keeps).
pub open spec fn spec_hex_to_rgb(s: Seq<char>) -> (int, int, int) {
    if is_hex_color(s) {
        (channel_value(s[1], s[2]), channel_value(s[3], s[4]), channel_value(s[5], s[6]))
    } else {
        (0, 0, 0)
    }
}

/// The uppercase hex digit for a value in [0, 16).
pub open spec fn hex_digit_char(v: int) -> char {
    if v < 10 {
        (v + 48) as char
    } else {
        (v + 55) as char
    }
}

/// The `#RRGGBB` rendering of an RGB triple with channels in [0, 255].
pub open spec fn spec_rgb_to_hex(r: int, g: int, b: int) -> Seq<char> {
    seq![
        '#',
        hex_digit_char(r / 16),
        hex_digit_char(r % 16),
        hex_digit_char(g / 16),
        hex_digit_char(g % 16),
        hex_digit_char(b / 16),
        hex_digit_char(b % 16),
    ]
}

/// Whatever the input, the decoded channels lie in [0, 255]: a hex digit
/// pair is below 256, and the fallback is black.
pub proof fn lemma_hex_to_rgb_bounds(s: Seq<char>)
    ensures
        ({
            let (r, g, b) = spec_hex_to_rgb(s);
            0 <= r <= 255 && 0 <= g <= 255 && 0 <= b <= 255
        }),
{
}

/// A hex digit in [0, 16) decodes back to itself: formatting is injective
/// digit by digit.
pub proof fn lemma_hex_digit_round_trip(v: int)
    requires
        0 <= v < 16,
    ensures
        is_hex_digit(hex_digit_char(v)),
        hex_digit_value(hex_digit_char(v)) == v,
{
}

/// Formatting an RGB triple and decoding the result gives the triple back:
/// the `#RRGGBB` rendering loses nothing.
pub proof fn lemma_hex_round_trip(r: int, g: int, b: int)
    requires
        0 <= r <= 255,
        0 <= g <= 255,
        0 <= b <= 255,
    ensures
        spec_hex_to_rgb(spec_rgb_to_hex(r, g, b)) == (r, g, b),
{
    let s = spec_rgb_to_hex(r, g, b);
    lemma_hex_digit_round_trip(r / 16);
    lemma_hex_digit_round_trip(r % 16);
    lemma_hex_digit_round_trip(g / 16);
    lemma_hex_digit_round_trip(g % 16);
    lemma_hex_digit_round_trip(b / 16);
    lemma_hex_digit_round_trip(b % 16);
    assert(is_hex_color(s));
    vstd::arithmetic::div_mod::lemma_fundamental_div_mod(r, 16);
    vstd::arithmetic::div_mod::lemma_fundamental_div_mod(g, 16);
    vstd::arithmetic::div_mod::lemma_fundamental_div_mod(b, 16);
}

/// The reason a color string was rejected.
#[derive(Clone, Copy, Debug, PartialEq, Eq, Structural)]
pub enum ColorError {
    InvalidColorFormat,
}

fn is_hex_digit_char(c: char) -> (b: bool)
    ensures
        b == is_hex_digit(c),
{
    let u = c as u32;
    (48 <= u && u <= 57) || (97 <= u && u <= 102) || (65 <= u && u <= 70)
}

fn hex_digit_value_char(c: char) -> (v: u32)
    requires
        is_hex_digit(c),
    ensures
        v == hex_digit_value(c),
        v < 16,
{
    let u = c as u32;
    if 48 <= u && u <= 57 {
        u - 48
    } else if 97 <= u && u <= 102 {
        u - 87
    } else {
        u - 55
    }
}

/// Decodes one channel from the digit pair at positions `i`, `i + 1`.
fn decode_channel(color: &str, i: usize) -> (v: i32)
    requires
        i < 6,
        i + 1 < color@.len(),
        is_hex_digit(color@[i as int]),
        is_hex_digit(color@[i as int + 1]),
    ensures
        v == channel_value(color@[i as int], color@[i as int + 1]),
        0 <= v <= 255,
{
    let hi = hex_digit_value_char(color.get_char(i));
    let lo = hex_digit_value_char(color.get_char(i + 1));
    (16 * hi + lo) as i32
}

/// Decodes a hex color string, rejecting anything that is not `#` followed
/// by six hex digits.
pub fn try_hex_to_rgb(color: &str) -> (rgb: Result<(i32, i32, i32), ColorError>)
    ensures
        rgb is Ok <==> is_hex_color(color@),
        rgb matches Ok(t) ==> {
            let (r, g, b) = spec_hex_to_rgb(color@);
            t.0 == r && t.1 == g && t.2 == b && 0 <= t.0 <= 255 && 0 <= t.1 <= 255 && 0 <= t.2
                <= 255
        },
        rgb is Err ==> rgb == Result::<(i32, i32, i32), ColorError>::Err(
            ColorError::InvalidColorFormat,
        ),
{
    if color.unicode_len() != 7 {
        return Err(ColorError::InvalidColorFormat);
    }
    if color.get_char(0) != '#' {
        return Err(ColorError::InvalidColorFormat);
    }
    let mut i: usize = 1;
    while i < 7
        invariant
            1 <= i <= 7,
            color@.len() == 7,
            forall|j: int| 1 <= j < i ==> is_hex_digit(#[trigger] color@[j]),
        decreases 7 - i,
    {
        if !is_hex_digit_char(color.get_char(i)) {
            return Err(ColorError::InvalidColorFormat);
        }
        i = i + 1;
    }
    let r = decode_channel(color, 1);
    let g = decode_channel(color, 3);
    let b = decode_channel(color, 5);
    Ok((r, g, b))
}

/// Decodes a hex color string, falling back to black on malformed input.
pub fn hex_to_rgb(color: &str) -> (rgb: (i32, i32, i32))
    ensures
        ({
            let (r, g, b) = spec_hex_to_rgb(color@);
            rgb.0 == r && rgb.1 == g && rgb.2 == b
        }),
        0 <= rgb.0 <= 255,
        0 <= rgb.1 <= 255,
        0 <= rgb.2 <= 255,
{
    match try_hex_to_rgb(color) {
        Ok(rgb) => rgb,
        Err(_) => (0, 0, 0),
    }
}

fn hex_digit_str(v: u32) -> (s: &'static str)
    requires
        v < 16,
    ensures
        s@ =~= seq![hex_digit_char(v as int)],
{
    proof {
        reveal_strlit("0");
        reveal_strlit("1");
        reveal_strlit("2");
        reveal_strlit("3");
        reveal_strlit("4");
        reveal_strlit("5");
        reveal_strlit("6");
        reveal_strlit("7");
        reveal_strlit("8");
        reveal_strlit("9");
        reveal_strlit("A");
        reveal_strlit("B");
        reveal_strlit("C");
        reveal_strlit("D");
        reveal_strlit("E");
        reveal_strlit("F");
    }
    match v {
        0 => "0",
        1 => "1",
        2 => "2",
        3 => "3",
        4 => "4",
        5 => "5",
        6 => "6",
        7 => "7",
        8 => "8",
        9 => "9",
        10 => "A",
        11 => "B",
        12 => "C",
        13 => "D",
        14 => "E",
        _ => "F",
    }
}

/// Appends the two uppercase hex digits of one channel value.
fn push_channel(out: &mut String, v: i32)
    requires
        0 <= v <= 255,
    ensures
        final(out)@ =~= old(out)@ + seq![hex_digit_char(v as int / 16), hex_digit_char(v as int % 16)],
{
    let u = v as u32;
    out.append(hex_digit_str(u / 16));
    out.append(hex_digit_str(u % 16));
}

/// Formats an RGB triple as `#` followed by six uppercase hex digits,
/// two zero-padded digits per channel.
pub fn rgb_to_hex(r: i32, g: i32, b: i32) -> (s: String)
    requires
        0 <= r <= 255,
        0 <= g <= 255,
        0 <= b <= 255,
    ensures
        s@ == spec_rgb_to_hex(r as int, g as int, b as int),
{
    proof {
        reveal_strlit("#");
    }
    let mut out = String::from_str("#");
    push_channel(&mut out, r);
    push_channel(&mut out, g);
    push_channel(&mut out, b);
    proof {
        assert(out@ =~= spec_rgb_to_hex(r as int, g as int, b as int));
    }
    out
}

} // verus!
