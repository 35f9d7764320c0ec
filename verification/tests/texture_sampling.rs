use texcolor::color::Color;
use texcolor::texture::{axis_indices, clamp01, describe_load_error, error_description, Texture};

fn tex(w: u32, h: u32, data: Vec<u8>) -> Texture {
    Texture::from_raw(w, h, data).unwrap()
}

fn chans(c: Color) -> [f64; 3] {
    [f64::from_bits(c.r), f64::from_bits(c.g), f64::from_bits(c.b)]
}

fn lerp3(a: [f64; 3], b: [f64; 3], t: f64) -> [f64; 3] {
    [
        a[0] * (1.0 - t) + b[0] * t,
        a[1] * (1.0 - t) + b[1] * t,
        a[2] * (1.0 - t) + b[2] * t,
    ]
}

// The continuous bilinear sampling that callers assemble around the
// library: coordinate clamping, index arithmetic and texel decoding are
// the library's; the blending arithmetic is binary64.
fn sample(t: &Texture, x: f64, y: f64) -> [f64; 3] {
    let w = t.width();
    let h = t.height();
    let xs = f64::from_bits(clamp01(x.to_bits())) * (w - 1) as f64;
    let ys = f64::from_bits(clamp01(y.to_bits())) * (h - 1) as f64;
    let (x0, x1) = axis_indices(xs.to_bits(), w);
    let (y0, y1) = axis_indices(ys.to_bits(), h);
    let xx = xs - x0 as f64;
    let yy = ys - y0 as f64;
    let cx0 = lerp3(chans(t.at(x0, y0)), chans(t.at(x0, y1)), yy);
    let cx1 = lerp3(chans(t.at(x1, y0)), chans(t.at(x1, y1)), yy);
    lerp3(cx0, cx1, xx)
}

#[test]
fn from_raw_checks_buffer_length() {
    assert!(Texture::from_raw(2, 2, vec![0u8; 12]).is_some());
    assert!(Texture::from_raw(2, 2, vec![0u8; 11]).is_none());
    assert!(Texture::from_raw(2, 2, vec![0u8; 13]).is_none());
    assert!(Texture::from_raw(0, 5, vec![]).is_some());
}

#[test]
fn dimensions_are_kept() {
    let t = tex(3, 2, (0u8..18).collect());
    assert_eq!(t.width(), 3);
    assert_eq!(t.height(), 2);
}

#[test]
fn at_decodes_the_addressed_texel() {
    let t = tex(3, 2, (0u8..18).collect());
    // Texel (1, 0) holds bytes 3, 4, 5; texel (2, 1) holds 15, 16, 17.
    assert_eq!(t.at(1, 0), Color::from_srgb(3, 4, 5));
    assert_eq!(t.at(2, 1), Color::from_srgb(15, 16, 17));
}

#[test]
fn sample_hits_texel_centers() {
    let data: Vec<u8> = vec![
        10, 20, 30, 200, 100, 50, 0, 255, 128, 5, 6, 7, 90, 80, 70, 255, 0, 33,
    ];
    let t = tex(3, 2, data);
    for x in 0..3u32 {
        for y in 0..2u32 {
            let u = x as f64 / 2.0;
            let v = y as f64 / 1.0;
            assert_eq!(sample(&t, u, v), chans(t.at(x, y)));
        }
    }
}

#[test]
fn sample_clamps_out_of_range_coordinates() {
    let t = tex(3, 2, (100u8..118).collect());
    assert_eq!(sample(&t, -1.0, -1.0), sample(&t, 0.0, 0.0));
    assert_eq!(sample(&t, 2.0, 2.0), sample(&t, 1.0, 1.0));
}

#[test]
fn sample_midpoint_is_average() {
    let t = tex(2, 1, vec![10, 20, 30, 200, 100, 50]);
    let a = chans(t.at(0, 0));
    let b = chans(t.at(1, 0));
    let m = sample(&t, 0.5, 0.0);
    for i in 0..3 {
        assert_eq!(m[i], (a[i] + b[i]) / 2.0);
    }
}

#[test]
fn sample_replicates_the_border() {
    let t = tex(3, 2, (50u8..68).collect());
    // At the last column the neighbor clamps to the same index: no
    // extrapolation past the edge, whatever the row coordinate.
    assert_eq!(sample(&t, 1.0, 0.0), chans(t.at(2, 0)));
    assert_eq!(sample(&t, 1.0, 1.0), chans(t.at(2, 1)));
    let y = 0.37;
    let expect = lerp3(chans(t.at(2, 0)), chans(t.at(2, 1)), y * 1.0 - 0.0);
    assert_eq!(sample(&t, 1.0, y), expect);
}

#[test]
fn clamp_is_idempotent_at_runtime() {
    let samples: [f64; 8] = [
        -3.0,
        -0.0,
        0.0,
        0.25,
        1.0,
        7.5,
        f64::INFINITY,
        f64::NEG_INFINITY,
    ];
    for &v in samples.iter() {
        let once = clamp01(v.to_bits());
        assert_eq!(clamp01(once), once);
    }
    // A not-a-number coordinate passes through unchanged.
    let n = clamp01(f64::NAN.to_bits());
    assert!(f64::from_bits(n).is_nan());
}

#[test]
fn axis_neighbor_clamps_to_last_index() {
    assert_eq!(axis_indices((0.0f64).to_bits(), 3), (0, 1));
    assert_eq!(axis_indices((1.5f64).to_bits(), 3), (1, 2));
    assert_eq!(axis_indices((2.0f64).to_bits(), 3), (2, 2));
    assert_eq!(axis_indices((0.0f64).to_bits(), 1), (0, 0));
}

#[test]
fn description_is_prefix_plus_error_text() {
    assert_eq!(describe_load_error("bad header").as_str(), "error #bad header");
    assert_eq!(describe_load_error("").as_str(), "error #");
}

#[test]
fn load_reports_decode_failure() {
    let r = Texture::load("no_such_texture_file.png");
    let e = match r {
        Ok(_) => panic!("expected a decode failure"),
        Err(e) => e,
    };
    let msg = error_description(e);
    assert!(msg.as_str().starts_with("error #"));
}
