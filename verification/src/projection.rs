//! The orthographic projection from window pixels to normalized device
//! coordinates, in exact arithmetic.
//!
//! The bounds of the projection are whole numbers (a window is so many pixels
//! wide), so every entry of the matrix is a ratio of two integers. The matrix
//! is kept in that form; the host divides once per entry when it hands the
//! matrix to the driver.

use vstd::prelude::*;

verus! {

/// The ratio `num / den`, not reduced. A ratio whose `den` is zero is not a
/// number: it comes out of a projection whose bounds coincide.
#[derive(Clone, Copy, Debug, PartialEq, Eq)]
pub struct Ratio {
    pub num: i128,
    pub den: i128,
}

/// An exact rational as a (numerator, denominator) pair.
pub type Rational = (int, int);

pub open spec fn rational(r: Ratio) -> Rational {
    (r.num as int, r.den as int)
}

/// `a` and `b` denote the same number.
pub open spec fn same(a: Rational, b: Rational) -> bool {
    a.0 * b.1 == b.0 * a.1
}

pub open spec fn sum(a: Rational, b: Rational) -> Rational {
    (a.0 * b.1 + b.0 * a.1, a.1 * b.1)
}

pub open spec fn scaled(a: Rational, k: int) -> Rational {
    (a.0 * k, a.1)
}

pub open spec fn whole(k: int) -> Rational {
    (k, 1)
}

/// The matrix of the standard orthographic projection for the given bounds,
/// column by column; the translations stand in the last column, before the
/// homogeneous 1.
pub open spec fn ortho_matrix(left: int, right: int, bottom: int, top: int, near: int, far: int) -> Seq<
    Rational,
> {
    seq![
        (2, right - left), whole(0), whole(0), whole(0),
        whole(0), (2, top - bottom), whole(0), whole(0),
        whole(0), whole(0), (-2, far - near), whole(0),
        (-(right + left), right - left), (-(top + bottom), top - bottom), (-(far + near), far - near), whole(1),
    ]
}

/// Row `row` of the column-major matrix `m` applied to the point
/// `(x, y, z, 1)`.
pub open spec fn transformed(m: Seq<Rational>, row: int, x: int, y: int, z: int) -> Rational {
    sum(
        sum(sum(scaled(m[row], x), scaled(m[row + 4], y)), scaled(m[row + 8], z)),
        m[row + 12],
    )
}

pub open spec fn matrix_view(m: [Ratio; 16]) -> Seq<Rational> {
    Seq::new(16, |i: int| rational(m[i]))
}

/// Builds the orthographic projection for the given bounds.
pub fn ortho(left: i64, right: i64, bottom: i64, top: i64, near: i64, far: i64) -> (m: [Ratio; 16])
    ensures
        matrix_view(m) == ortho_matrix(
            left as int,
            right as int,
            bottom as int,
            top as int,
            near as int,
            far as int,
        ),
{
    let zero = Ratio { num: 0, den: 1 };
    let one = Ratio { num: 1, den: 1 };
    let width: i128 = right as i128 - left as i128;
    let height: i128 = top as i128 - bottom as i128;
    let depth: i128 = far as i128 - near as i128;
    let m = [
        Ratio { num: 2, den: width },
        zero,
        zero,
        zero,
        zero,
        Ratio { num: 2, den: height },
        zero,
        zero,
        zero,
        zero,
        Ratio { num: -2, den: depth },
        zero,
        Ratio { num: -(right as i128 + left as i128), den: width },
        Ratio { num: -(top as i128 + bottom as i128), den: height },
        Ratio { num: -(far as i128 + near as i128), den: depth },
        one,
    ];
    assert(matrix_view(m) =~= ortho_matrix(
        left as int,
        right as int,
        bottom as int,
        top as int,
        near as int,
        far as int,
    ));
    m
}

/// The projection of a window of `width` by `height` pixels: x runs from 0
/// to `width`, y from 0 to `height`, with the near plane at 1 and the far
/// plane at -1.
pub open spec fn viewport_matrix(width: u32, height: u32) -> Seq<Rational> {
    ortho_matrix(0, width as int, 0, height as int, 1, -1)
}

/// Builds the projection of a window of `width` by `height` pixels.
pub fn viewport_projection(width: u32, height: u32) -> (m: [Ratio; 16])
    ensures
        matrix_view(m) == viewport_matrix(width, height),
{
    ortho(0, width as i64, 0, height as i64, 1, -1)
}

/// An orthographic projection over a box with distinct bounds maps the box's
/// corners onto the corners of the unit cube: `left`, `bottom` and the near
/// plane (z = -near) go to -1, `right`, `top` and the far plane (z = -far) go
/// to 1, and the homogeneous coordinate stays 1, whatever the other two
/// coordinates of the point are.
pub proof fn lemma_ortho_maps_box_onto_cube(
    left: int,
    right: int,
    bottom: int,
    top: int,
    near: int,
    far: int,
    x: int,
    y: int,
    z: int,
)
    requires
        left != right,
        bottom != top,
        near != far,
    ensures
        ({
            let m = ortho_matrix(left, right, bottom, top, near, far);
            &&& same(transformed(m, 0, left, y, z), whole(-1))
            &&& same(transformed(m, 0, right, y, z), whole(1))
            &&& same(transformed(m, 1, x, bottom, z), whole(-1))
            &&& same(transformed(m, 1, x, top, z), whole(1))
            &&& same(transformed(m, 2, x, y, -near), whole(-1))
            &&& same(transformed(m, 2, x, y, -far), whole(1))
            &&& same(transformed(m, 3, x, y, z), whole(1))
        }),
{
    let m = ortho_matrix(left, right, bottom, top, near, far);
    let w = right - left;
    let h = top - bottom;
    let d = far - near;
    let zero = whole(0);
    assert(m[0] == (2int, w) && m[4] == zero && m[8] == zero && m[12] == (-(right + left), w));
    assert(m[1] == zero && m[5] == (2int, h) && m[9] == zero && m[13] == (-(top + bottom), h));
    assert(m[2] == zero && m[6] == zero && m[10] == (-2int, d) && m[14] == (-(far + near), d));
    assert(m[3] == zero && m[7] == zero && m[11] == zero && m[15] == whole(1));
    lemma_axis_ends(left, right);
    lemma_axis_ends(bottom, top);
    lemma_axis_ends(near, far);
    lemma_single_term(2, w, -(right + left), left, y, z);
    lemma_single_term(2, w, -(right + left), right, y, z);
    lemma_single_term(2, h, -(top + bottom), bottom, x, z);
    lemma_single_term(2, h, -(top + bottom), top, x, z);
    lemma_single_term(-2, d, -(far + near), -near, x, y);
    lemma_single_term(-2, d, -(far + near), -far, x, y);
    lemma_single_term(0, 1, 1, x, y, z);
}

/// For a window with a positive width and height, the viewport projection maps
/// the window's four corners onto the corners of the square [-1, 1] x [-1, 1]:
/// x = 0 and y = 0 go to -1, x = `width` and y = `height` go to 1. Depth is
/// kept as it is, so the planes z = -1 and z = 1 stay where they are, and the
/// homogeneous coordinate stays 1.
pub proof fn lemma_viewport_corners_map_to_unit_square(width: u32, height: u32, x: int, y: int, z: int)
    requires
        width > 0,
        height > 0,
    ensures
        ({
            let m = viewport_matrix(width, height);
            &&& same(transformed(m, 0, 0, y, z), whole(-1))
            &&& same(transformed(m, 0, width as int, y, z), whole(1))
            &&& same(transformed(m, 1, x, 0, z), whole(-1))
            &&& same(transformed(m, 1, x, height as int, z), whole(1))
            &&& same(transformed(m, 2, x, y, -1), whole(-1))
            &&& same(transformed(m, 2, x, y, 1), whole(1))
            &&& same(transformed(m, 2, x, y, z), whole(z))
            &&& same(transformed(m, 3, x, y, z), whole(1))
        }),
{
    lemma_ortho_maps_box_onto_cube(0, width as int, 0, height as int, 1, -1, x, y, z);
    let m = viewport_matrix(width, height);
    assert(m[2] == whole(0) && m[6] == whole(0) && m[10] == (-2int, -2int) && m[14] == (0int, -2int));
    lemma_single_term(-2, -2, 0, z, x, y);
    assert(transformed(m, 2, x, y, z) == (4 * z, 4int));
    assert((4 * z) * 1 == z * 4) by (nonlinear_arith);
}

/// A row with one entry `s / e` beside two zeros and the translation `t / e`
/// takes the coordinate `p` under that entry to `(s * p + t) / e`, wherever
/// in the row the entry stands and whatever the coordinates `q` and `r` under
/// the zeros are.
proof fn lemma_single_term(s: int, e: int, t: int, p: int, q: int, r: int)
    ensures
        ({
            let entry = (s, e);
            let zero = whole(0);
            let value = (s * p * e + t * e, e * e);
            &&& sum(sum(sum(scaled(entry, p), scaled(zero, q)), scaled(zero, r)), (t, e)) == value
            &&& sum(sum(sum(scaled(zero, q), scaled(entry, p)), scaled(zero, r)), (t, e)) == value
            &&& sum(sum(sum(scaled(zero, q), scaled(zero, r)), scaled(entry, p)), (t, e)) == value
        }),
{
    assert((0 * q) * e == 0 && (0 * r) * e == 0) by (nonlinear_arith);
    assert(s * p * 1 == s * p && e * 1 == e && 1 * e == e);
}

/// Along one axis with bounds `lo != hi` and extent `e = hi - lo`, the affine
/// map `p -> (2p - (hi + lo)) / e` sends `lo` to -1 and `hi` to 1; its mirror
/// image `p -> (-2p - (hi + lo)) / e` sends `-lo` to -1 and `-hi` to 1.
proof fn lemma_axis_ends(lo: int, hi: int)
    ensures
        ({
            let e = hi - lo;
            &&& (2 * lo * e + (-(hi + lo)) * e) * 1 == -1 * (e * e)
            &&& (2 * hi * e + (-(hi + lo)) * e) * 1 == 1 * (e * e)
            &&& (-2 * (-lo) * e + (-(hi + lo)) * e) * 1 == -1 * (e * e)
            &&& (-2 * (-hi) * e + (-(hi + lo)) * e) * 1 == 1 * (e * e)
        }),
{
    let e = hi - lo;
    assert((2 * lo * e + (-(hi + lo)) * e) == -(e * e)) by (nonlinear_arith)
        requires
            e == hi - lo,
    ;
    assert((2 * hi * e + (-(hi + lo)) * e) == e * e) by (nonlinear_arith)
        requires
            e == hi - lo,
    ;
    assert(-2 * (-lo) * e == 2 * lo * e) by (nonlinear_arith);
    assert(-2 * (-hi) * e == 2 * hi * e) by (nonlinear_arith);
}

} // verus!
