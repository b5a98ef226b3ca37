use colors::degrees::{normalize_degrees, CIRCLE_DEGREES};
use colors::hex::{hex_to_rgb, rgb_to_hex, try_hex_to_rgb, ColorError};
use colors::hsl::{hsl_to_rgb, rgb_to_hsl};
use colors::spin;

#[test]
fn normalize_degrees_should_return_0_when_360() {
    assert_eq!(0, normalize_degrees(CIRCLE_DEGREES));
}

#[test]
fn normalize_degrees_should_return_num_when_between_0_and_359() {
    for d in 0..CIRCLE_DEGREES {
        assert_eq!(d, normalize_degrees(d));
    }
}

#[test]
fn normalize_degrees_should_return_positive_when_negative() {
    for d in (-CIRCLE_DEGREES + 1)..0 {
        assert_eq!(d + CIRCLE_DEGREES, normalize_degrees(d));
    }
}

#[test]
fn normalize_degrees_should_wrap_when_greater_than_360() {
    for d in (CIRCLE_DEGREES + 1)..(CIRCLE_DEGREES * 2 - 1) {
        assert_eq!(d - CIRCLE_DEGREES, normalize_degrees(d));
    }
}

#[test]
fn hex_to_rgb_should_return_0_0_0_when_invalid_string() {
    assert_eq!((0, 0, 0), hex_to_rgb("foo"));
}

#[test]
fn hex_to_rgb_should_return_red_when_red() {
    assert_eq!((255, 0, 0), hex_to_rgb("#ff0000"));
}

#[test]
fn hex_to_rgb_should_return_green_when_green() {
    assert_eq!((0, 255, 0), hex_to_rgb("#00ff00"));
}

#[test]
fn hex_to_rgb_should_return_blue_when_blue() {
    assert_eq!((0, 0, 255), hex_to_rgb("#0000ff"));
}

#[test]
fn hex_to_rgb_should_return_proper_color() {
    assert_eq!((161, 178, 195), hex_to_rgb("#a1b2c3"));
}

#[test]
fn rgb_to_hsl_should_return_hsl_for_red() {
    assert_eq!((0, 100, 50), rgb_to_hsl(255, 0, 0));
}

#[test]
fn rgb_to_hsl_should_return_hsl_for_green() {
    assert_eq!((120, 100, 50), rgb_to_hsl(0, 255, 0));
}

#[test]
fn rgb_to_hsl_should_return_hsl_for_blue() {
    assert_eq!((240, 100, 50), rgb_to_hsl(0, 0, 255));
}

#[test]
fn rgb_to_hsl_should_return_hsl_for_color() {
    assert_eq!((210, 22, 69), rgb_to_hsl(161, 178, 195));
}

#[test]
fn hsl_to_rgb_should_return_rgb_for_red() {
    assert_eq!((255, 0, 0), hsl_to_rgb(0, 100, 50));
}

#[test]
fn hsl_to_rgb_should_return_rgb_for_green() {
    assert_eq!((0, 255, 0), hsl_to_rgb(120, 100, 50));
}

#[test]
fn hsl_to_rgb_should_return_rgb_for_blue() {
    assert_eq!((0, 0, 255), hsl_to_rgb(240, 100, 50));
}

#[test]
fn hsl_to_rgb_should_return_rgb_for_color() {
    assert_eq!((158, 175, 193), hsl_to_rgb(210, 22, 69));
}

#[test]
fn rgb_to_hex_should_return_hex_when_red() {
    assert_eq!("#FF0000", rgb_to_hex(255, 0, 0));
}

#[test]
fn rgb_to_hex_should_return_hex_when_green() {
    assert_eq!("#00FF00", rgb_to_hex(0, 255, 0));
}

#[test]
fn rgb_to_hex_should_return_hex_when_blue() {
    assert_eq!("#0000FF", rgb_to_hex(0, 0, 255));
}

#[test]
fn rgb_to_hex_should_return_hex_when_color() {
    assert_eq!("#A1B2C3", rgb_to_hex(161, 178, 195));
}

#[test]
fn normalize_degrees_keeps_result_within_one_turn() {
    for d in [-1081, -720, -359, -1, 0, 1, 359, 360, 361, 719, 720, 1081] {
        let r = normalize_degrees(d);
        assert!((0..=360).contains(&r));
        assert_eq!(r.rem_euclid(360), d.rem_euclid(360));
    }
}

#[test]
fn normalize_degrees_returns_360_for_negative_multiples_of_360() {
    assert_eq!(360, normalize_degrees(-360));
    assert_eq!(360, normalize_degrees(-720));
}

#[test]
fn hex_to_rgb_accepts_uppercase_digits() {
    assert_eq!((161, 178, 195), hex_to_rgb("#A1B2C3"));
}

#[test]
fn hex_to_rgb_falls_back_to_black_on_malformed_input() {
    assert_eq!((0, 0, 0), hex_to_rgb(""));
    assert_eq!((0, 0, 0), hex_to_rgb("a1b2c3!"));
    assert_eq!((0, 0, 0), hex_to_rgb("#a1b2g3"));
    assert_eq!((0, 0, 0), hex_to_rgb("#a1b2c34"));
    assert_eq!((0, 0, 0), hex_to_rgb("#a1b2c"));
}

#[test]
fn try_hex_to_rgb_reports_invalid_format() {
    assert_eq!(Err(ColorError::InvalidColorFormat), try_hex_to_rgb("foo"));
    assert_eq!(Err(ColorError::InvalidColorFormat), try_hex_to_rgb("a1b2c3x"));
    assert_eq!(Ok((161, 178, 195)), try_hex_to_rgb("#a1b2c3"));
}

#[test]
fn rgb_to_hsl_handles_achromatic_colors() {
    assert_eq!((0, 0, 0), rgb_to_hsl(0, 0, 0));
    assert_eq!((0, 0, 100), rgb_to_hsl(255, 255, 255));
    assert_eq!((0, 0, 50), rgb_to_hsl(128, 128, 128));
}

#[test]
fn hsl_to_rgb_treats_hue_360_like_hue_0() {
    assert_eq!(hsl_to_rgb(0, 100, 50), hsl_to_rgb(360, 100, 50));
}

#[test]
fn spin_matches_reference_output() {
    assert_eq!("#BCE0FF", spin(45, "#C0FFEE"));
}

#[test]
fn spin_by_120_rotates_primaries() {
    assert_eq!("#FF0000", spin(120, "#0000FF"));
    assert_eq!("#0000FF", spin(120, "#00FF00"));
}

#[test]
fn spin_zero_equals_pipeline_of_reencoded_color() {
    for color in ["#a1b2c3", "#C0FFEE", "#000000", "#ffffff", "nonsense"] {
        let (r, g, b) = hex_to_rgb(color);
        let canon = rgb_to_hex(r, g, b);
        assert_eq!(spin(0, &canon), spin(0, color));
    }
}

#[test]
fn hex_round_trip_recovers_channels() {
    for (r, g, b) in [(0, 0, 0), (255, 255, 255), (161, 178, 195), (1, 16, 240)] {
        assert_eq!((r, g, b), hex_to_rgb(&rgb_to_hex(r, g, b)));
    }
}

#[test]
fn spin_falls_back_to_black_on_malformed_input() {
    assert_eq!("#000000", spin(90, "not a color"));
}
