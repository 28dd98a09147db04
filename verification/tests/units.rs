use fracmd::bits::{finite, is_zero, positive_finite, unit_interval};
use fracmd::color::{Color, Px};
use fracmd::complex::Complex;
use fracmd::config::Args;
use fracmd::escape::{escape_start, escape_step, EscapeState};
use fracmd::index::{compose_index, split_index};
use fracmd::renderer::Renderer;

fn valid_args() -> Args {
    Args {
        width: 4,
        height: 4,
        name: String::from("mandelbrot"),
        threads: 1,
        origin: Complex::new((-0.75f32).to_bits(), 0.0f32.to_bits()),
        zoom: 0.7f32.to_bits(),
        samples: 1,
        sampled: 2.0f32.to_bits(),
        limit: 256.0f32.to_bits(),
        bail: 16.0f32.to_bits(),
        cexp: 1.0f32.to_bits(),
        set_color: Color::new(
            0.0f32.to_bits(),
            0.0f32.to_bits(),
            0.0f32.to_bits(),
            1.0f32.to_bits(),
        ),
    }
}

#[test]
fn index_split_matches_convention() {
    // Column-major: i names column i / height and row i % height.
    assert_eq!(split_index(0, 4), (0, 0));
    assert_eq!(split_index(3, 4), (0, 3));
    assert_eq!(split_index(4, 4), (1, 0));
    assert_eq!(split_index(7, 4), (1, 3));
    assert_eq!(split_index(11, 3), (3, 2));
}

#[test]
fn index_roundtrip() {
    // Splitting and recomposing gives the index back, for every index
    // of a 5-by-7 raster.
    let (width, height) = (5i32, 7i32);
    for i in 0..width * height {
        let (col, row) = split_index(i, height);
        assert!(0 <= col && col < width);
        assert!(0 <= row && row < height);
        assert_eq!(compose_index(col, row, height), i);
    }
}

#[test]
fn bit_classification_agrees_with_float_semantics() {
    let positives = [0.7f32, 2.0, 256.0, 16.0, 1e-40, 3.4e38];
    for v in positives {
        assert!(positive_finite(v.to_bits()), "{v}");
        assert!(finite(v.to_bits()), "{v}");
    }
    let not_positive = [0.0f32, -0.0, -1.0, f32::INFINITY, f32::NEG_INFINITY, f32::NAN];
    for v in not_positive {
        assert!(!positive_finite(v.to_bits()), "{v}");
    }
    assert!(finite(0.0f32.to_bits()));
    assert!(finite((-123.5f32).to_bits()));
    assert!(!finite(f32::INFINITY.to_bits()));
    assert!(!finite(f32::NEG_INFINITY.to_bits()));
    assert!(!finite(f32::NAN.to_bits()));
    let in_unit = [0.0f32, 0.25, 0.5, 1.0, 1e-10];
    for v in in_unit {
        assert!(unit_interval(v.to_bits()), "{v}");
    }
    let out_of_unit = [1.0000001f32, 2.0, -1.0, f32::INFINITY, f32::NAN];
    for v in out_of_unit {
        assert!(!unit_interval(v.to_bits()), "{v}");
    }
}

#[test]
fn zero_bit_patterns_are_exactly_the_two_zeros() {
    assert!(is_zero(0.0f32.to_bits()));
    assert!(is_zero((-0.0f32).to_bits()));
    assert!(!is_zero(1e-45f32.to_bits()));
    assert!(!is_zero((-1e-45f32).to_bits()));
    assert!(!is_zero(1.0f32.to_bits()));
    assert!(!is_zero(f32::NAN.to_bits()));
}

#[test]
fn zero_saturation_gray_has_equal_channels() {
    // The zero-saturation HSV branch: whatever the hue was, the three
    // color channels come out equal to the value.
    let c = fracmd::color::hsv_gray(1.0f32.to_bits(), 0.25f32.to_bits());
    assert_eq!(c.r, c.g);
    assert_eq!(c.g, c.b);
    assert_eq!(f32::from_bits(c.r), 1.0);
    assert_eq!(f32::from_bits(c.a), 0.25);
}

#[test]
fn config_validation_accepts_default_like_args() {
    assert!(valid_args().is_valid());
}

#[test]
fn config_validation_rejects_each_bad_field() {
    let mut a = valid_args();
    a.width = 0;
    assert!(!a.is_valid());
    a = valid_args();
    a.height = -1;
    assert!(!a.is_valid());
    a = valid_args();
    a.threads = 0;
    assert!(!a.is_valid());
    a = valid_args();
    a.samples = 0;
    assert!(!a.is_valid());
    a = valid_args();
    a.zoom = 0.0f32.to_bits();
    assert!(!a.is_valid());
    a = valid_args();
    a.sampled = 0.0f32.to_bits();
    assert!(!a.is_valid());
    a = valid_args();
    a.limit = f32::INFINITY.to_bits();
    assert!(!a.is_valid());
    a = valid_args();
    a.bail = (-16.0f32).to_bits();
    assert!(!a.is_valid());
    a = valid_args();
    a.cexp = f32::NAN.to_bits();
    assert!(!a.is_valid());
    a = valid_args();
    a.origin = Complex::new(f32::NAN.to_bits(), 0);
    assert!(!a.is_valid());
    a = valid_args();
    a.set_color.a = 255.0f32.to_bits();
    assert!(!a.is_valid());
}

/// Runs the escape loop for the quadratic iteration z' = z*z + c with
/// init(c) = c, doing the floating-point work here and the control
/// decisions in the library's state machine.
fn run_escape(c_re: f32, c_im: f32, bail: f32, limit: f32) -> EscapeState {
    let mut st = escape_start(Complex::new(c_re.to_bits(), c_im.to_bits()));
    loop {
        let z_re = f32::from_bits(st.z.re);
        let z_im = f32::from_bits(st.z.im);
        let count = f32::from_bits(st.count);
        let lt_bail = z_re * z_re + z_im * z_im < bail;
        let lt_limit = count < limit;
        if lt_bail && lt_limit {
            let nr = z_re * z_re - z_im * z_im + c_re;
            let ni = 2.0 * z_re * z_im + c_im;
            let ncount = count + 1.0;
            let nsmooth = f32::from_bits(st.smooth) + (-(nr * nr + ni * ni)).exp();
            st = escape_step(
                st,
                true,
                true,
                Complex::new(nr.to_bits(), ni.to_bits()),
                ncount.to_bits(),
                nsmooth.to_bits(),
            );
        } else {
            st = escape_step(st, lt_bail, lt_limit, st.z, st.count, st.smooth);
            return st;
        }
    }
}

#[test]
fn escape_zero_stays_in_set() {
    // c = 0 with the quadratic iteration: z stays at 0 forever, so the
    // count must reach the limit exactly and the point is in the set.
    let st = run_escape(0.0, 0.0, 16.0, 256.0);
    assert!(st.done);
    assert!(!st.escaped);
    assert_eq!(st.count, 256.0f32.to_bits());
    assert_eq!(f32::from_bits(st.z.re), 0.0);
    assert_eq!(f32::from_bits(st.z.im), 0.0);
}

#[test]
fn escape_immediate_bailout_counts_zero() {
    // |c|^2 = 25 is already at or past bail = 16: the count must be 0
    // (the bit pattern of 0.0) on the very first check.
    let st = run_escape(5.0, 0.0, 16.0, 256.0);
    assert!(st.done);
    assert!(st.escaped);
    assert_eq!(st.count, 0.0f32.to_bits());
    assert_eq!(st.count, 0u32);
    assert_eq!(f32::from_bits(st.z.re), 5.0);
}

#[test]
fn escape_stops_when_limit_reached() {
    // A point that never escapes the bail radius stops once the counter
    // compares not-below the limit.
    let st = run_escape(-1.0, 0.0, 16.0, 8.0);
    assert!(st.done);
    assert!(!st.escaped);
    assert_eq!(st.count, 8.0f32.to_bits());
}

#[test]
fn render_scatters_column_major() {
    let (width, height) = (2i32, 3i32);
    let mut pixels: Vec<Px> = Vec::new();
    for i in 0..(width * height) as u16 {
        pixels.push(Px::new(i, 100 + i, 200 + i, 300 + i));
    }
    let mut args = valid_args();
    args.width = width;
    args.height = height;
    let renderer = Renderer::new(args);
    let raster = renderer.render(&pixels);
    assert_eq!(raster.width(), width as u32);
    assert_eq!(raster.height(), height as u32);
    for i in 0..width * height {
        let (col, row) = split_index(i, height);
        let got = raster.get(col as u32, row as u32);
        let want = pixels[i as usize];
        assert_eq!(got, (want.r, want.g, want.b, want.a));
    }
}

#[test]
fn render_raw_layout_is_row_major_samples() {
    let (width, height) = (2i32, 2i32);
    let pixels = vec![
        Px::new(1, 2, 3, 4),
        Px::new(5, 6, 7, 8),
        Px::new(9, 10, 11, 12),
        Px::new(13, 14, 15, 16),
    ];
    let renderer = Renderer::new({
        let mut a = valid_args();
        a.width = width;
        a.height = height;
        a
    });
    let raster = renderer.render(&pixels);
    // Index i = col * height + row lands at cell (col, row); the raw
    // vector stores rows first, four samples per pixel.
    let raw = raster.into_raw();
    assert_eq!(raw.len(), 16);
    // cell (0, 0) <- pixels[0], cell (1, 0) <- pixels[2]
    assert_eq!(&raw[0..8], &[1, 2, 3, 4, 9, 10, 11, 12]);
    // cell (0, 1) <- pixels[1], cell (1, 1) <- pixels[3]
    assert_eq!(&raw[8..16], &[5, 6, 7, 8, 13, 14, 15, 16]);
}

#[test]
fn render_is_deterministic_in_its_input() {
    // Assembling the same pixel vector twice gives bit-identical
    // rasters: the raster is a function of the vector alone.
    let (width, height) = (3i32, 3i32);
    let mut pixels: Vec<Px> = Vec::new();
    for i in 0..(width * height) as u16 {
        pixels.push(Px::new(i.wrapping_mul(7), i, 65535 - i, 1000 + i));
    }
    let mut args = valid_args();
    args.width = width;
    args.height = height;
    let renderer = Renderer::new(args);
    let a = renderer.render(&pixels);
    let b = renderer.render(&pixels);
    assert_eq!(a.into_raw(), b.into_raw());
}

#[test]
fn renderer_update_args_replaces_dimensions() {
    let mut renderer = Renderer::new(valid_args());
    assert_eq!(renderer.width, 4);
    assert_eq!(renderer.height, 4);
    let mut next = valid_args();
    next.width = 10;
    next.height = 20;
    renderer.update_args(next);
    assert_eq!(renderer.width, 10);
    assert_eq!(renderer.height, 20);
}
