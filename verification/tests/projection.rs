use gl_text_pipe::projection::{ortho, viewport_projection, Ratio};

const ZERO: Ratio = Ratio { num: 0, den: 1 };
const ONE: Ratio = Ratio { num: 1, den: 1 };

fn number(r: Ratio) -> f64 {
    r.num as f64 / r.den as f64
}

/// Applies the column-major matrix to the point (x, y, z, 1) in exact
/// arithmetic. Each coordinate of the result is a fraction (numerator,
/// denominator).
fn transform(m: &[Ratio; 16], x: i128, y: i128, z: i128) -> [(i128, i128); 4] {
    let mut out = [(0, 1); 4];
    for row in 0..4 {
        let terms = [
            (m[row].num * x, m[row].den),
            (m[row + 4].num * y, m[row + 4].den),
            (m[row + 8].num * z, m[row + 8].den),
            (m[row + 12].num, m[row + 12].den),
        ];
        let mut sum = (0, 1);
        for (num, den) in terms {
            sum = (sum.0 * den + num * sum.1, sum.1 * den);
        }
        out[row] = sum;
    }
    out
}

/// Whether the fractions are the whole numbers given.
fn is_point(fractions: [(i128, i128); 4], expected: [i128; 4]) -> bool {
    (0..4).all(|i| fractions[i].1 != 0 && fractions[i].0 == expected[i] * fractions[i].1)
}

#[test]
fn ortho_entries_are_the_standard_formula() {
    let m = ortho(10, 30, 5, 45, 2, 12);
    assert_eq!(
        m,
        [
            Ratio { num: 2, den: 20 },
            ZERO,
            ZERO,
            ZERO,
            ZERO,
            Ratio { num: 2, den: 40 },
            ZERO,
            ZERO,
            ZERO,
            ZERO,
            Ratio { num: -2, den: 10 },
            ZERO,
            Ratio { num: -40, den: 20 },
            Ratio { num: -50, den: 40 },
            Ratio { num: -14, den: 10 },
            ONE,
        ]
    );
}

#[test]
fn ortho_as_numbers() {
    let m = ortho(10, 30, 5, 45, 2, 12);
    assert_eq!(number(m[0]), 0.1);
    assert_eq!(number(m[5]), 0.05);
    assert_eq!(number(m[10]), -0.2);
    assert_eq!(number(m[12]), -2.0);
    assert_eq!(number(m[13]), -1.25);
    assert_eq!(number(m[14]), -1.4);
    assert_eq!(number(m[15]), 1.0);
}

#[test]
fn viewport_projection_of_a_window() {
    let m = viewport_projection(1024, 576);
    assert_eq!(m[0], Ratio { num: 2, den: 1024 });
    assert_eq!(m[5], Ratio { num: 2, den: 576 });
    assert_eq!(m[10], Ratio { num: -2, den: -2 });
    assert_eq!(m[12], Ratio { num: -1024, den: 1024 });
    assert_eq!(m[13], Ratio { num: -576, den: 576 });
    assert_eq!(m[14], Ratio { num: 0, den: -2 });
    assert_eq!(m[15], ONE);
    assert_eq!(m, ortho(0, 1024, 0, 576, 1, -1));
}

#[test]
fn viewport_projection_matches_single_precision_formula() {
    let sizes = [
        (1024u32, 576u32),
        (1, 1),
        (3, 7),
        (1023, 767),
        (1920, 1080),
        (65535, 4099),
        (16_777_217, 33_554_435),
        (u32::MAX, u32::MAX - 1),
    ];
    for (width, height) in sizes {
        assert_eq!(single_precision(width, height), formula(width as f32, height as f32));
    }
}

/// The entries of the viewport projection, each divided out in single
/// precision.
fn single_precision(width: u32, height: u32) -> Vec<f32> {
    viewport_projection(width, height).iter().map(|r| r.num as f32 / r.den as f32).collect()
}

/// The orthographic projection of a window of `w` by `h` pixels, computed in
/// single precision throughout.
fn formula(w: f32, h: f32) -> Vec<f32> {
    let (left, right, bottom, top, near, far) = (0.0f32, w, 0.0f32, h, 1.0f32, -1.0f32);
    vec![
        2.0 / (right - left),
        0.0,
        0.0,
        0.0,
        0.0,
        2.0 / (top - bottom),
        0.0,
        0.0,
        0.0,
        0.0,
        -2.0 / (far - near),
        0.0,
        -(right + left) / (right - left),
        -(top + bottom) / (top - bottom),
        -(far + near) / (far - near),
        1.0,
    ]
}

#[test]
fn viewport_corners_map_to_the_unit_square() {
    for (w, h) in [(1024u32, 576u32), (1, 1), (800, 600), (3, 7), (4096, 2160)] {
        let m = viewport_projection(w, h);
        let (w, h) = (w as i128, h as i128);
        assert!(is_point(transform(&m, 0, 0, -1), [-1, -1, -1, 1]));
        assert!(is_point(transform(&m, w, 0, -1), [1, -1, -1, 1]));
        assert!(is_point(transform(&m, 0, h, 1), [-1, 1, 1, 1]));
        assert!(is_point(transform(&m, w, h, 1), [1, 1, 1, 1]));
        assert!(!is_point(transform(&m, w, h, 1), [1, 1, -1, 1]));
    }
}

#[test]
fn viewport_centre_maps_to_the_origin() {
    let m = viewport_projection(1024, 576);
    assert!(is_point(transform(&m, 512, 288, 0), [0, 0, 0, 1]));
}

#[test]
fn ortho_box_corners_map_to_the_cube() {
    let m = ortho(-20, 60, 100, -100, 3, 9);
    assert!(is_point(transform(&m, -20, 100, -3), [-1, -1, -1, 1]));
    assert!(is_point(transform(&m, 60, -100, -9), [1, 1, 1, 1]));
}

#[test]
fn empty_window_gives_zero_denominators() {
    let m = viewport_projection(0, 0);
    assert_eq!(m[0], Ratio { num: 2, den: 0 });
    assert_eq!(m[5], Ratio { num: 2, den: 0 });
    assert_eq!(m[12], Ratio { num: 0, den: 0 });
}

#[test]
fn ortho_takes_the_widest_bounds() {
    let m = ortho(i64::MIN, i64::MAX, i64::MIN, i64::MAX, i64::MIN, i64::MAX);
    assert_eq!(m[0], Ratio { num: 2, den: u64::MAX as i128 });
    assert_eq!(m[12], Ratio { num: 1, den: u64::MAX as i128 });
    assert_eq!(m[10], Ratio { num: -2, den: u64::MAX as i128 });
}
