use texcolor::codec::{decode_byte, encode_linear};
use texcolor::color::{clamp_scaled_byte, Color};
use texcolor::fbits::{f64_cast_u32, f64_cast_u8, f64_ge, f64_lt};

#[test]
fn gamma_round_trip_all_bytes() {
    for b in 0..=255u8 {
        assert_eq!(encode_linear(decode_byte(b)), b);
    }
}

#[test]
fn decode_matches_reference_values() {
    assert_eq!(decode_byte(0), (0.0f64).to_bits());
    assert_eq!(decode_byte(1), (0.000303526983548837515f64).to_bits());
    assert_eq!(decode_byte(10), (0.003035269835488374826f64).to_bits());
    assert_eq!(decode_byte(254), (0.991102097113829794139f64).to_bits());
    assert_eq!(decode_byte(255), (1.0f64).to_bits());
}

#[test]
fn decode_is_monotone() {
    for b in 0..255u8 {
        let lo = f64::from_bits(decode_byte(b));
        let hi = f64::from_bits(decode_byte(b + 1));
        assert!(lo < hi);
    }
}

#[test]
fn encode_reference_points() {
    assert_eq!(encode_linear((0.0f64).to_bits()), 0);
    assert_eq!(encode_linear((-0.0f64).to_bits()), 0);
    assert_eq!(encode_linear((0.5f64).to_bits()), 188);
    assert_eq!(encode_linear((1.0f64).to_bits()), 255);
    assert_eq!(encode_linear((-1.0f64).to_bits()), 0);
    assert_eq!(encode_linear((2.0f64).to_bits()), 255);
    assert_eq!(encode_linear(f64::NAN.to_bits()), 255);
}

#[test]
fn encode_first_midpoint_boundary() {
    // The first midpoint itself is not below itself, so it encodes to 1.
    assert_eq!(encode_linear((0.000151763491774418758f64).to_bits()), 1);
}

#[test]
fn comparison_agrees_with_hardware() {
    let samples: [f64; 12] = [
        0.0,
        -0.0,
        1.0,
        -1.0,
        0.5,
        255.0,
        -2.5,
        5e-324,
        f64::NAN,
        f64::INFINITY,
        f64::NEG_INFINITY,
        1.0000000000000002,
    ];
    for &a in samples.iter() {
        for &b in samples.iter() {
            assert_eq!(f64_lt(a.to_bits(), b.to_bits()), a < b);
            assert_eq!(f64_ge(a.to_bits(), b.to_bits()), a >= b);
        }
    }
}

#[test]
fn casts_agree_with_hardware() {
    let samples: [f64; 14] = [
        0.0,
        -0.0,
        0.9,
        1.0,
        3.7,
        127.5,
        254.999,
        255.0,
        256.5,
        -0.5,
        -7.3,
        5e9,
        f64::NAN,
        f64::INFINITY,
    ];
    for &a in samples.iter() {
        assert_eq!(f64_cast_u32(a.to_bits()), a as u32);
        assert_eq!(f64_cast_u8(a.to_bits()), a as u8);
    }
}

#[test]
fn clamped_bytes_truncate_not_round() {
    // Channels (-1.0, 0.5, 2.0) export to (0, 127, 255): 0.5 * 255 is
    // 127.5 and truncates to 127.
    let r = clamp_scaled_byte((-1.0f64 * 255.0).to_bits());
    let g = clamp_scaled_byte((0.5f64 * 255.0).to_bits());
    let b = clamp_scaled_byte((2.0f64 * 255.0).to_bits());
    assert_eq!((r, g, b), (0, 127, 255));
}

#[test]
fn rgb_and_bgr_byte_order() {
    let r = (-1.0f64 * 255.0).to_bits();
    let g = (0.5f64 * 255.0).to_bits();
    let b = (2.0f64 * 255.0).to_bits();
    assert_eq!(texcolor::color::rgb_bytes(r, g, b), [0, 127, 255]);
    assert_eq!(texcolor::color::bgr_bytes(r, g, b), [255, 127, 0]);
}

#[test]
fn clamped_byte_of_nan_is_zero() {
    assert_eq!(clamp_scaled_byte((f64::NAN * 255.0).to_bits()), 0);
}

#[test]
fn from_rgb_is_passthrough() {
    let c = Color::from_rgb((1.5f64).to_bits(), (-0.25f64).to_bits(), (0.0f64).to_bits());
    assert_eq!(f64::from_bits(c.r), 1.5);
    assert_eq!(f64::from_bits(c.g), -0.25);
    assert_eq!(f64::from_bits(c.b), 0.0);
}

#[test]
fn from_srgb_decodes_each_channel() {
    let c = Color::from_srgb(0, 1, 255);
    assert_eq!(c.r, (0.0f64).to_bits());
    assert_eq!(c.g, (0.000303526983548837515f64).to_bits());
    assert_eq!(c.b, (1.0f64).to_bits());
}

#[test]
fn write_bgr_reencodes_and_touches_one_pixel() {
    let c = Color::from_srgb(10, 200, 30);
    let mut buf: Vec<u8> = vec![7u8; 9];
    c.write_bgr(&mut buf, 1);
    assert_eq!(buf, vec![7, 7, 7, 30, 200, 10, 7, 7, 7]);
}

fn add3(a: [f64; 3], b: [f64; 3]) -> [f64; 3] {
    [a[0] + b[0], a[1] + b[1], a[2] + b[2]]
}

fn scale3(a: [f64; 3], k: f64) -> [f64; 3] {
    [a[0] * k, a[1] * k, a[2] * k]
}

fn div3(a: [f64; 3], k: f64) -> [f64; 3] {
    [a[0] / k, a[1] / k, a[2] / k]
}

#[test]
fn color_arithmetic_properties() {
    // Componentwise binary64 arithmetic, as the callers of the library
    // perform it on decoded channels: addition commutes exactly,
    // associates within tolerance, scaling by 1 is the identity, and
    // scaling up and down by the same nonzero factor returns within
    // tolerance.
    let a = [0.25, -1.5, 0.7];
    let b = [0.1, 2.25, -0.3];
    let c = [1e-3, 0.9, 42.0];
    assert_eq!(add3(a, b), add3(b, a));
    let l = add3(add3(a, b), c);
    let r = add3(a, add3(b, c));
    for i in 0..3 {
        assert!((l[i] - r[i]).abs() <= 1e-12);
    }
    assert_eq!(scale3(a, 1.0), a);
    let back = div3(scale3(a, 3.7), 3.7);
    for i in 0..3 {
        assert!((back[i] - a[i]).abs() <= 1e-12);
    }
}
