//! Four-dimensional vector algebra over exact integer scalars.
//!
//! Scalars are plain `i64` values; every operation's contract states the
//! result as a polynomial over mathematical integers, so the algebraic laws
//! (orthogonality of the generalized cross product, and the view transform
//! sending the camera position to the origin) hold exactly rather than up to
//! rounding.

use vstd::prelude::*;

verus! {

/// A vector in 4-space with exact integer coordinates.
#[derive(Clone, Copy, Debug, PartialEq, Eq, Structural)]
pub struct Vec4 {
    pub x: i64,
    pub y: i64,
    pub z: i64,
    pub w: i64,
}

impl View for Vec4 {
    type V = Seq<int>;

    open spec fn view(&self) -> Seq<int> {
        seq![self.x as int, self.y as int, self.z as int, self.w as int]
    }
}

impl Vec4 {
    pub fn new(x: i64, y: i64, z: i64, w: i64) -> (r: Vec4)
        ensures
            r@ == seq![x as int, y as int, z as int, w as int],
    {
        Vec4 { x, y, z, w }
    }
}

/// The dot product of two 4-vectors, as a mathematical integer.
pub open spec fn dot4(a: Seq<int>, b: Seq<int>) -> int {
    a[0] * b[0] + a[1] * b[1] + a[2] * b[2] + a[3] * b[3]
}

/// The generalized cross product of three 4-vectors: the cofactor expansion,
/// with alternating sign, of the 3x4 matrix with rows `x`, `y`, `z` along the
/// missing fourth row.
pub open spec fn cross4_spec(x: Seq<int>, y: Seq<int>, z: Seq<int>) -> Seq<int> {
    let a = y[0] * z[1] - y[1] * z[0];
    let b = y[0] * z[2] - y[2] * z[0];
    let c = y[0] * z[3] - y[3] * z[0];
    let d = y[1] * z[2] - y[2] * z[1];
    let e = y[1] * z[3] - y[3] * z[1];
    let f = y[2] * z[3] - y[3] * z[2];
    seq![
        x[1] * f - x[2] * e + x[3] * d,
        -x[0] * f + x[2] * c - x[3] * b,
        x[0] * e - x[1] * c + x[3] * a,
        -x[0] * d + x[1] * b - x[2] * a,
    ]
}

/// The four unsigned 3x3 minors of the 3x4 matrix with rows `x`, `y`, `z`:
/// the k-th coordinate is the determinant of the matrix with column k
/// removed, with no alternating sign applied.
pub open spec fn cross_minors_spec(x: Seq<int>, y: Seq<int>, z: Seq<int>) -> Seq<int> {
    seq![
        x[1] * (y[2] * z[3] - y[3] * z[2]) - x[2] * (y[1] * z[3] - y[3] * z[1])
            + x[3] * (y[1] * z[2] - y[2] * z[1]),
        x[0] * (y[2] * z[3] - y[3] * z[2]) - x[2] * (y[0] * z[3] - y[3] * z[0])
            + x[3] * (y[0] * z[2] - y[2] * z[0]),
        x[0] * (y[1] * z[3] - y[3] * z[1]) - x[1] * (y[0] * z[3] - y[3] * z[0])
            + x[3] * (y[0] * z[1] - y[1] * z[0]),
        x[0] * (y[1] * z[2] - y[2] * z[1]) - x[1] * (y[0] * z[2] - y[2] * z[0])
            + x[2] * (y[0] * z[1] - y[1] * z[0]),
    ]
}

/// All four coordinates lie within `[-b, b]`.
pub open spec fn vec4_bounded(v: Seq<int>, b: int) -> bool {
    forall|i: int| 0 <= i < 4 ==> -b <= #[trigger] v[i] <= b
}

/// Coordinate bound under which the cross product's triple products cannot
/// overflow a 64-bit result.
pub const CROSS4_COORD_MAX: i64 = 1_000_000;

/// Coordinate bound under which a dot product cannot overflow.
pub const DOT4_COORD_MAX: i64 = 1_000_000_000;


/// Integer division rounding toward zero, as the machine division of signed
/// integers does.
pub open spec fn div_toward_zero(a: int, b: int) -> int {
    if a >= 0 {
        a / b
    } else {
        -((-a) / b)
    }
}

/// A signed coordinate axis (one coordinate is 1 or -1, the rest are zero)
/// is a unit vector.
pub proof fn lemma_signed_axis_is_unit(a0: int, a1: int, a2: int, a3: int)
    by (nonlinear_arith)
    requires
        ({
            ||| ((a0 == 1 || a0 == -1) && a1 == 0 && a2 == 0 && a3 == 0)
            ||| ((a1 == 1 || a1 == -1) && a0 == 0 && a2 == 0 && a3 == 0)
            ||| ((a2 == 1 || a2 == -1) && a0 == 0 && a1 == 0 && a3 == 0)
            ||| ((a3 == 1 || a3 == -1) && a0 == 0 && a1 == 0 && a2 == 0)
        }),
    ensures
        a0 * a0 + a1 * a1 + a2 * a2 + a3 * a3 == 1,
{
}

pub proof fn lemma_mul_bound(a: int, b: int, m: int, n: int) by (nonlinear_arith)
    requires
        -m <= a <= m,
        -n <= b <= n,
        0 <= m,
        0 <= n,
    ensures
        -(m * n) <= a * b <= m * n,
{
}

proof fn mul_dist_pmp(k: int, p: int, q: int, r: int) by (nonlinear_arith)
    ensures
        k * (p - q + r) == k * p - k * q + k * r,
{
}

proof fn mul_dist_mpm(k: int, p: int, q: int, r: int) by (nonlinear_arith)
    ensures
        k * (-(p) + q - r) == -(k * p) + k * q - k * r,
{
}

proof fn mul_shuffle(p: int, q: int, r: int) by (nonlinear_arith)
    ensures
        p * (q * r) == q * (p * r),
{
}

proof fn mul_neg_left(p: int, q: int) by (nonlinear_arith)
    ensures
        (-p) * q == -(p * q),
{
}

proof fn lemma_det3_repeat_left(u1: int, u2: int, u3: int, w1: int, w2: int, w3: int)
    by (nonlinear_arith)
    ensures
        u1 * (u2 * w3 - u3 * w2) - u2 * (u1 * w3 - u3 * w1) + u3 * (u1 * w2 - u2 * w1) == 0,
{
}

proof fn lemma_det3_repeat_outer(u1: int, u2: int, u3: int, v1: int, v2: int, v3: int)
    by (nonlinear_arith)
    ensures
        u1 * (v2 * u3 - v3 * u2) - u2 * (v1 * u3 - v3 * u1) + u3 * (v1 * u2 - v2 * u1) == 0,
{
}

/// The generalized cross product is orthogonal to each of its arguments:
/// its dot product with each of `x`, `y`, `z` is exactly zero.
pub proof fn lemma_cross4_orthogonal(x: Seq<int>, y: Seq<int>, z: Seq<int>)
    ensures
        dot4(x, cross4_spec(x, y, z)) == 0,
        dot4(y, cross4_spec(x, y, z)) == 0,
        dot4(z, cross4_spec(x, y, z)) == 0,
{
    let c = cross4_spec(x, y, z);
    let ma = y[0] * z[1] - y[1] * z[0];
    let mb = y[0] * z[2] - y[2] * z[0];
    let mc = y[0] * z[3] - y[3] * z[0];
    let md = y[1] * z[2] - y[2] * z[1];
    let me = y[1] * z[3] - y[3] * z[1];
    let mf = y[2] * z[3] - y[3] * z[2];
    mul_neg_left(x[0], mf);
    mul_neg_left(x[0], md);
    assert(c[0] == x[1] * mf - x[2] * me + x[3] * md);
    assert(c[1] == -(x[0] * mf) + x[2] * mc - x[3] * mb);
    assert(c[2] == x[0] * me - x[1] * mc + x[3] * ma);
    assert(c[3] == -(x[0] * md) + x[1] * mb - x[2] * ma);

    // Distribute each coefficient of `x` over the cross components.
    mul_dist_pmp(x[0], x[1] * mf, x[2] * me, x[3] * md);
    mul_dist_mpm(x[1], x[0] * mf, x[2] * mc, x[3] * mb);
    mul_dist_pmp(x[2], x[0] * me, x[1] * mc, x[3] * ma);
    mul_dist_mpm(x[3], x[0] * md, x[1] * mb, x[2] * ma);
    // Reassociate so that the twelve triple products cancel in pairs.
    mul_shuffle(x[1], x[0], mf);
    mul_shuffle(x[2], x[0], me);
    mul_shuffle(x[3], x[0], md);
    mul_shuffle(x[2], x[1], mc);
    mul_shuffle(x[3], x[1], mb);
    mul_shuffle(x[3], x[2], ma);
    assert(dot4(x, c) == 0);

    // Distribute each coefficient of `y`, reassociate to put `x` first, and
    // cancel the four groups, each a 3x3 determinant with a repeated row.
    mul_dist_pmp(y[0], x[1] * mf, x[2] * me, x[3] * md);
    mul_dist_mpm(y[1], x[0] * mf, x[2] * mc, x[3] * mb);
    mul_dist_pmp(y[2], x[0] * me, x[1] * mc, x[3] * ma);
    mul_dist_mpm(y[3], x[0] * md, x[1] * mb, x[2] * ma);
    mul_shuffle(y[0], x[1], mf);
    mul_shuffle(y[0], x[2], me);
    mul_shuffle(y[0], x[3], md);
    mul_shuffle(y[1], x[0], mf);
    mul_shuffle(y[1], x[2], mc);
    mul_shuffle(y[1], x[3], mb);
    mul_shuffle(y[2], x[0], me);
    mul_shuffle(y[2], x[1], mc);
    mul_shuffle(y[2], x[3], ma);
    mul_shuffle(y[3], x[0], md);
    mul_shuffle(y[3], x[1], mb);
    mul_shuffle(y[3], x[2], ma);
    lemma_det3_repeat_left(y[1], y[2], y[3], z[1], z[2], z[3]);
    lemma_det3_repeat_left(y[0], y[2], y[3], z[0], z[2], z[3]);
    lemma_det3_repeat_left(y[0], y[1], y[3], z[0], z[1], z[3]);
    lemma_det3_repeat_left(y[0], y[1], y[2], z[0], z[1], z[2]);
    mul_dist_pmp(x[0], y[1] * mf, y[2] * me, y[3] * md);
    mul_dist_pmp(x[1], y[0] * mf, y[2] * mc, y[3] * mb);
    mul_dist_pmp(x[2], y[0] * me, y[1] * mc, y[3] * ma);
    mul_dist_pmp(x[3], y[0] * md, y[1] * mb, y[2] * ma);
    assert(dot4(y, c) == 0);

    // The same argument with `z` as the repeated row.
    mul_dist_pmp(z[0], x[1] * mf, x[2] * me, x[3] * md);
    mul_dist_mpm(z[1], x[0] * mf, x[2] * mc, x[3] * mb);
    mul_dist_pmp(z[2], x[0] * me, x[1] * mc, x[3] * ma);
    mul_dist_mpm(z[3], x[0] * md, x[1] * mb, x[2] * ma);
    mul_shuffle(z[0], x[1], mf);
    mul_shuffle(z[0], x[2], me);
    mul_shuffle(z[0], x[3], md);
    mul_shuffle(z[1], x[0], mf);
    mul_shuffle(z[1], x[2], mc);
    mul_shuffle(z[1], x[3], mb);
    mul_shuffle(z[2], x[0], me);
    mul_shuffle(z[2], x[1], mc);
    mul_shuffle(z[2], x[3], ma);
    mul_shuffle(z[3], x[0], md);
    mul_shuffle(z[3], x[1], mb);
    mul_shuffle(z[3], x[2], ma);
    lemma_det3_repeat_outer(z[1], z[2], z[3], y[1], y[2], y[3]);
    lemma_det3_repeat_outer(z[0], z[2], z[3], y[0], y[2], y[3]);
    lemma_det3_repeat_outer(z[0], z[1], z[3], y[0], y[1], y[3]);
    lemma_det3_repeat_outer(z[0], z[1], z[2], y[0], y[1], y[2]);
    mul_dist_pmp(x[0], z[1] * mf, z[2] * me, z[3] * md);
    mul_dist_pmp(x[1], z[0] * mf, z[2] * mc, z[3] * mb);
    mul_dist_pmp(x[2], z[0] * me, z[1] * mc, z[3] * ma);
    mul_dist_pmp(x[3], z[0] * md, z[1] * mb, z[2] * ma);
    assert(dot4(z, c) == 0);
}


proof fn lemma_axes_cross_norm(
    x0: int, x1: int, x2: int, x3: int,
    y0: int, y1: int, y2: int, y3: int,
    z0: int, z1: int, z2: int, z3: int,
) by (nonlinear_arith)
    requires
        ({
            ||| ((x0 == 1 || x0 == -1) && x1 == 0 && x2 == 0 && x3 == 0)
            ||| ((x1 == 1 || x1 == -1) && x0 == 0 && x2 == 0 && x3 == 0)
            ||| ((x2 == 1 || x2 == -1) && x0 == 0 && x1 == 0 && x3 == 0)
            ||| ((x3 == 1 || x3 == -1) && x0 == 0 && x1 == 0 && x2 == 0)
        }),
        ({
            ||| ((y0 == 1 || y0 == -1) && y1 == 0 && y2 == 0 && y3 == 0)
            ||| ((y1 == 1 || y1 == -1) && y0 == 0 && y2 == 0 && y3 == 0)
            ||| ((y2 == 1 || y2 == -1) && y0 == 0 && y1 == 0 && y3 == 0)
            ||| ((y3 == 1 || y3 == -1) && y0 == 0 && y1 == 0 && y2 == 0)
        }),
        ({
            ||| ((z0 == 1 || z0 == -1) && z1 == 0 && z2 == 0 && z3 == 0)
            ||| ((z1 == 1 || z1 == -1) && z0 == 0 && z2 == 0 && z3 == 0)
            ||| ((z2 == 1 || z2 == -1) && z0 == 0 && z1 == 0 && z3 == 0)
            ||| ((z3 == 1 || z3 == -1) && z0 == 0 && z1 == 0 && z2 == 0)
        }),
        x0 * y0 + x1 * y1 + x2 * y2 + x3 * y3 == 0,
        x0 * z0 + x1 * z1 + x2 * z2 + x3 * z3 == 0,
        y0 * z0 + y1 * z1 + y2 * z2 + y3 * z3 == 0,
    ensures
        ({
            let d0 = x1 * (y2 * z3 - y3 * z2) - x2 * (y1 * z3 - y3 * z1)
                + x3 * (y1 * z2 - y2 * z1);
            let d1 = -x0 * (y2 * z3 - y3 * z2) + x2 * (y0 * z3 - y3 * z0)
                - x3 * (y0 * z2 - y2 * z0);
            let d2 = x0 * (y1 * z3 - y3 * z1) - x1 * (y0 * z3 - y3 * z0)
                + x3 * (y0 * z1 - y1 * z0);
            let d3 = -x0 * (y1 * z2 - y2 * z1) + x1 * (y0 * z2 - y2 * z0)
                - x2 * (y0 * z1 - y1 * z0);
            d0 * d0 + d1 * d1 + d2 * d2 + d3 * d3 == 1
        }),
{
}

/// The generalized cross product of three signed coordinate axes that are
/// mutually orthogonal is itself a unit vector: the norm part of the
/// orthonormal-frame law, on the axis-aligned frames the cameras build.
pub proof fn lemma_cross4_of_unit_axes_is_unit(x: Seq<int>, y: Seq<int>, z: Seq<int>)
    requires
        signed_axis(x),
        signed_axis(y),
        signed_axis(z),
        dot4(x, y) == 0,
        dot4(x, z) == 0,
        dot4(y, z) == 0,
    ensures
        dot4(cross4_spec(x, y, z), cross4_spec(x, y, z)) == 1,
{
    let c = cross4_spec(x, y, z);
    let ma = y[0] * z[1] - y[1] * z[0];
    let mb = y[0] * z[2] - y[2] * z[0];
    let mc = y[0] * z[3] - y[3] * z[0];
    let md = y[1] * z[2] - y[2] * z[1];
    let me = y[1] * z[3] - y[3] * z[1];
    let mf = y[2] * z[3] - y[3] * z[2];
    mul_neg_left(x[0], mf);
    mul_neg_left(x[0], md);
    assert(c[0] == x[1] * mf - x[2] * me + x[3] * md);
    assert(c[1] == -(x[0] * mf) + x[2] * mc - x[3] * mb);
    assert(c[2] == x[0] * me - x[1] * mc + x[3] * ma);
    assert(c[3] == -(x[0] * md) + x[1] * mb - x[2] * ma);
    lemma_axes_cross_norm(
        x[0], x[1], x[2], x[3],
        y[0], y[1], y[2], y[3],
        z[0], z[1], z[2], z[3],
    );
}

/// One coordinate is 1 or -1 and the rest are zero.
pub open spec fn signed_axis(v: Seq<int>) -> bool {
    ||| ((v[0] == 1 || v[0] == -1) && v[1] == 0 && v[2] == 0 && v[3] == 0)
    ||| ((v[1] == 1 || v[1] == -1) && v[0] == 0 && v[2] == 0 && v[3] == 0)
    ||| ((v[2] == 1 || v[2] == -1) && v[0] == 0 && v[1] == 0 && v[3] == 0)
    ||| ((v[3] == 1 || v[3] == -1) && v[0] == 0 && v[1] == 0 && v[2] == 0)
}

/// The generalized cross product of three 4-vectors.
pub fn cross4(x: &Vec4, y: &Vec4, z: &Vec4) -> (r: Vec4)
    requires
        vec4_bounded(x@, CROSS4_COORD_MAX as int),
        vec4_bounded(y@, CROSS4_COORD_MAX as int),
        vec4_bounded(z@, CROSS4_COORD_MAX as int),
    ensures
        r@ == cross4_spec(x@, y@, z@),
{
    let (a, b, c, d, e, f) = minors(y, z);
    let r = Vec4 {
        x: outer(x.y, f, x.z, e, x.w, d),
        y: outer(x.z, c, x.x, f, -x.w, b),
        z: outer(x.x, e, x.y, c, x.w, a),
        w: outer(x.y, b, x.x, d, -x.z, a),
    };
    proof {
        mul_neg_left(x@[0], f as int);
        mul_neg_left(x@[0], d as int);
        mul_neg_left(x@[3], b as int);
        mul_neg_left(x@[2], a as int);
        assert(r@ =~= cross4_spec(x@, y@, z@));
    }
    r
}

/// The four unsigned minors of the 3x4 matrix with rows `x`, `y`, `z`.
pub fn cross(x: &Vec4, y: &Vec4, z: &Vec4) -> (r: Vec4)
    requires
        vec4_bounded(x@, CROSS4_COORD_MAX as int),
        vec4_bounded(y@, CROSS4_COORD_MAX as int),
        vec4_bounded(z@, CROSS4_COORD_MAX as int),
    ensures
        r@ == cross_minors_spec(x@, y@, z@),
{
    let (a, b, c, d, e, f) = minors(y, z);
    let r = Vec4 {
        x: outer(x.y, f, x.z, e, x.w, d),
        y: outer(x.x, f, x.z, c, x.w, b),
        z: outer(x.x, e, x.y, c, x.w, a),
        w: outer(x.x, d, x.y, b, x.z, a),
    };
    proof {
        assert(r@ =~= cross_minors_spec(x@, y@, z@));
    }
    r
}

/// The six 2x2 minors of the 2x4 matrix with rows `y`, `z`.
fn minors(y: &Vec4, z: &Vec4) -> (r: (i64, i64, i64, i64, i64, i64))
    requires
        vec4_bounded(y@, CROSS4_COORD_MAX as int),
        vec4_bounded(z@, CROSS4_COORD_MAX as int),
    ensures
        r.0 as int == y@[0] * z@[1] - y@[1] * z@[0],
        r.1 as int == y@[0] * z@[2] - y@[2] * z@[0],
        r.2 as int == y@[0] * z@[3] - y@[3] * z@[0],
        r.3 as int == y@[1] * z@[2] - y@[2] * z@[1],
        r.4 as int == y@[1] * z@[3] - y@[3] * z@[1],
        r.5 as int == y@[2] * z@[3] - y@[3] * z@[2],
        -2_000_000_000_000 <= r.0 <= 2_000_000_000_000,
        -2_000_000_000_000 <= r.1 <= 2_000_000_000_000,
        -2_000_000_000_000 <= r.2 <= 2_000_000_000_000,
        -2_000_000_000_000 <= r.3 <= 2_000_000_000_000,
        -2_000_000_000_000 <= r.4 <= 2_000_000_000_000,
        -2_000_000_000_000 <= r.5 <= 2_000_000_000_000,
{
    proof {
        let cm = CROSS4_COORD_MAX as int;
        lemma_mul_bound(y@[0], z@[1], cm, cm);
        lemma_mul_bound(y@[1], z@[0], cm, cm);
        lemma_mul_bound(y@[0], z@[2], cm, cm);
        lemma_mul_bound(y@[2], z@[0], cm, cm);
        lemma_mul_bound(y@[0], z@[3], cm, cm);
        lemma_mul_bound(y@[3], z@[0], cm, cm);
        lemma_mul_bound(y@[1], z@[2], cm, cm);
        lemma_mul_bound(y@[2], z@[1], cm, cm);
        lemma_mul_bound(y@[1], z@[3], cm, cm);
        lemma_mul_bound(y@[3], z@[1], cm, cm);
        lemma_mul_bound(y@[2], z@[3], cm, cm);
        lemma_mul_bound(y@[3], z@[2], cm, cm);
    }
    let a: i64 = (y.x as i128 * z.y as i128 - y.y as i128 * z.x as i128) as i64;
    let b: i64 = (y.x as i128 * z.z as i128 - y.z as i128 * z.x as i128) as i64;
    let c: i64 = (y.x as i128 * z.w as i128 - y.w as i128 * z.x as i128) as i64;
    let d: i64 = (y.y as i128 * z.z as i128 - y.z as i128 * z.y as i128) as i64;
    let e: i64 = (y.y as i128 * z.w as i128 - y.w as i128 * z.y as i128) as i64;
    let f: i64 = (y.z as i128 * z.w as i128 - y.w as i128 * z.z as i128) as i64;
    (a, b, c, d, e, f)
}

/// The signed combination `p * u - q * v + r * t` of three coordinates with
/// three minors.
fn outer(p: i64, u: i64, q: i64, v: i64, r: i64, t: i64) -> (o: i64)
    requires
        -CROSS4_COORD_MAX <= p <= CROSS4_COORD_MAX,
        -CROSS4_COORD_MAX <= q <= CROSS4_COORD_MAX,
        -CROSS4_COORD_MAX <= r <= CROSS4_COORD_MAX,
        -2_000_000_000_000 <= u <= 2_000_000_000_000,
        -2_000_000_000_000 <= v <= 2_000_000_000_000,
        -2_000_000_000_000 <= t <= 2_000_000_000_000,
    ensures
        o as int == p * u - q * v + r * t,
{
    proof {
        lemma_mul_bound(p as int, u as int, CROSS4_COORD_MAX as int, 2_000_000_000_000);
        lemma_mul_bound(q as int, v as int, CROSS4_COORD_MAX as int, 2_000_000_000_000);
        lemma_mul_bound(r as int, t as int, CROSS4_COORD_MAX as int, 2_000_000_000_000);
    }
    (p as i128 * u as i128 - q as i128 * v as i128 + r as i128 * t as i128) as i64
}

/// The dot product of two 4-vectors.
pub fn dot4_exec(a: &Vec4, b: &Vec4) -> (r: i64)
    requires
        vec4_bounded(a@, DOT4_COORD_MAX as int),
        vec4_bounded(b@, DOT4_COORD_MAX as int),
    ensures
        r as int == dot4(a@, b@),
{
    proof {
        let dm = DOT4_COORD_MAX as int;
        lemma_mul_bound(a@[0], b@[0], dm, dm);
        lemma_mul_bound(a@[1], b@[1], dm, dm);
        lemma_mul_bound(a@[2], b@[2], dm, dm);
        lemma_mul_bound(a@[3], b@[3], dm, dm);
    }
    (a.x as i128 * b.x as i128 + a.y as i128 * b.y as i128 + a.z as i128 * b.z as i128
        + a.w as i128 * b.w as i128) as i64
}

} // verus!
