//! 5x5 homogeneous transforms over exact integer scalars.
//!
//! A `Mat5` acts on homogeneous 4-points `(x, y, z, w, 1)`. Because the
//! action is projective (the pipeline divides by the final coordinate), a
//! matrix and any nonzero scalar multiple of it describe the same transform;
//! the orthographic constructor uses this to stay within integers by
//! returning the transform scaled by the product of its four axis ranges.

use vstd::prelude::*;
use crate::math4::{Vec4, dot4, vec4_bounded, lemma_mul_bound};

verus! {

/// A 5x5 matrix in row-major order: entry `(i, j)` is `e[i * 5 + j]`.
#[derive(Clone, Copy, Debug, PartialEq, Eq)]
pub struct Mat5 {
    pub e: [i64; 25],
}

impl View for Mat5 {
    type V = Seq<int>;

    open spec fn view(&self) -> Seq<int> {
        Seq::new(25, |k: int| self.e@[k] as int)
    }
}

/// A vector in homogeneous 5-space.
#[derive(Clone, Copy, Debug, PartialEq, Eq, Structural)]
pub struct Vec5 {
    pub x: i64,
    pub y: i64,
    pub z: i64,
    pub w: i64,
    pub h: i64,
}

impl View for Vec5 {
    type V = Seq<int>;

    open spec fn view(&self) -> Seq<int> {
        seq![self.x as int, self.y as int, self.z as int, self.w as int, self.h as int]
    }
}

/// Entry `(i, j)` of a row-major 5x5 matrix.
pub open spec fn ent(m: Seq<int>, i: int, j: int) -> int {
    m[i * 5 + j]
}

/// All 25 entries lie within `[-b, b]`.
pub open spec fn mat5_bounded(m: Seq<int>, b: int) -> bool {
    forall|k: int| 0 <= k < 25 ==> -b <= #[trigger] m[k] <= b
}

/// Entry `(i, j)` of the product of two 5x5 matrices.
pub open spec fn mul5_ent(a: Seq<int>, b: Seq<int>, i: int, j: int) -> int {
    ent(a, i, 0) * ent(b, 0, j) + ent(a, i, 1) * ent(b, 1, j) + ent(a, i, 2) * ent(b, 2, j)
        + ent(a, i, 3) * ent(b, 3, j) + ent(a, i, 4) * ent(b, 4, j)
}

/// The product of two 5x5 matrices.
pub open spec fn mul5_spec(a: Seq<int>, b: Seq<int>) -> Seq<int> {
    Seq::new(25, |k: int| mul5_ent(a, b, k / 5, k % 5))
}

/// Every entry of the product fits in a 64-bit result.
pub open spec fn mul5_fits(a: Seq<int>, b: Seq<int>) -> bool {
    forall|i: int, j: int| 0 <= i < 5 && 0 <= j < 5 ==>
        i64::MIN <= #[trigger] mul5_ent(a, b, i, j) <= i64::MAX
}

/// The matrix applied to the homogeneous point `(v, 1)`.
pub open spec fn apply4_spec(m: Seq<int>, v: Seq<int>) -> Seq<int> {
    Seq::new(5, |i: int|
        ent(m, i, 0) * v[0] + ent(m, i, 1) * v[1] + ent(m, i, 2) * v[2] + ent(m, i, 3) * v[3]
            + ent(m, i, 4))
}

/// The identity transform.
pub open spec fn identity5_spec() -> Seq<int> {
    seq![
        1, 0, 0, 0, 0,
        0, 1, 0, 0, 0,
        0, 0, 1, 0, 0,
        0, 0, 0, 1, 0,
        0, 0, 0, 0, 1,
    ]
}

/// `m` with its translation column replaced by `m` applied to `(v, 1)`:
/// the transform that first translates by `v` and then applies `m`.
pub open spec fn translate4_spec(m: Seq<int>, v: Seq<int>) -> Seq<int> {
    Seq::new(25, |k: int|
        if k % 5 == 4 {
            ent(m, k / 5, 0) * v[0] + ent(m, k / 5, 1) * v[1] + ent(m, k / 5, 2) * v[2]
                + ent(m, k / 5, 3) * v[3] + ent(m, k / 5, 4)
        } else {
            m[k]
        })
}

/// Each column `j` of `m` scaled by `v[j]`.
pub open spec fn scale4_spec(m: Seq<int>, v: Seq<int>) -> Seq<int> {
    Seq::new(25, |k: int| m[k] * v[k % 5])
}

/// The view transform: rows are the basis vectors `x`, `y`, `z` and the
/// negated forward vector `w`, and the translation column carries each row's
/// dot product with the negated position, so that the camera position maps
/// to the origin of camera space. The basis must already be unit (see the
/// executable constructor's precondition); no per-frame correction is
/// applied afterwards.
pub open spec fn view4_spec(
    p: Seq<int>,
    x: Seq<int>,
    y: Seq<int>,
    z: Seq<int>,
    w: Seq<int>,
) -> Seq<int> {
    seq![
        x[0], x[1], x[2], x[3], -dot4(x, p),
        y[0], y[1], y[2], y[3], -dot4(y, p),
        z[0], z[1], z[2], z[3], -dot4(z, p),
        -w[0], -w[1], -w[2], -w[3], dot4(w, p),
        0, 0, 0, 0, 1,
    ]
}

/// The perspective transform along the w axis: x, y, z stay linear, and the
/// homogeneous coordinate becomes the camera-space w, realizing the
/// four-to-three divide.
pub open spec fn perspective4_spec(n: int, f: int) -> Seq<int> {
    seq![
        n, 0, 0, 0, 0,
        0, n, 0, 0, 0,
        0, 0, n, 0, 0,
        0, 0, 0, n + f, -(n * f),
        0, 0, 0, 1, 0,
    ]
}

/// The orthographic box transform, scaled by the product of the four ranges
/// so that all entries stay integral. For each axis with near `n`, far `f`
/// and range `r = f - n` (the w axis uses `r = n - f`), the true transform
/// has diagonal `2 / r` and translation `-(n + f) / r`; multiplying through
/// by the product `R` of all four ranges gives diagonal `2 * R / r`,
/// translation `-(n + f) * R / r` and corner `R`, which a projective
/// divide renders identically.
pub open spec fn ortho4_spec(
    xn: int, xf: int,
    yn: int, yf: int,
    zn: int, zf: int,
    wn: int, wf: int,
) -> Seq<int> {
    let rx = xf - xn;
    let ry = yf - yn;
    let rz = zf - zn;
    let rw = wn - wf;
    let px = ry * rz * rw;
    let py = rx * rz * rw;
    let pz = rx * ry * rw;
    let pw = rx * ry * rz;
    seq![
        2 * px, 0, 0, 0, -((xn + xf) * px),
        0, 2 * py, 0, 0, -((yn + yf) * py),
        0, 0, 2 * pz, 0, -((zn + zf) * pz),
        0, 0, 0, 2 * pw, -((wn + wf) * pw),
        0, 0, 0, 0, rx * ry * rz * rw,
    ]
}

/// The plane rotation touching rows and columns `i` and `j` of the identity,
/// with cosine `c` and sine `s` supplied by the caller.
pub open spec fn rotate4_spec(i: int, j: int, c: int, s: int) -> Seq<int> {
    Seq::new(25, |k: int|
        if k == i * 5 + i || k == j * 5 + j {
            c
        } else if k == i * 5 + j {
            s
        } else if k == j * 5 + i {
            -s
        } else {
            identity5_spec()[k]
        })
}

/// Bound on matrix entries accepted by the binary operations.
pub const MAT5_ENTRY_MAX: i64 = 4_611_686_018_427_387_904;

/// Bound on matrix and vector entries accepted by `translate4`, `scale4`
/// and `apply_point4`.
pub const MAT5_AFFINE_MAX: i64 = 1_073_741_824;

/// Bound on the near/far planes accepted by `ortho4`.
pub const ORTHO4_PLANE_MAX: i64 = 8192;

/// Bound on the near/far planes accepted by `perspective4`.
pub const PERSP4_PLANE_MAX: i64 = 1_048_576;

/// Bound on positions accepted by `view4`.
pub const VIEW4_POS_MAX: i64 = 1_099_511_627_776;

/// Bound on basis coordinates accepted by `view4`.
pub const VIEW4_BASIS_MAX: i64 = 65536;

impl Mat5 {
    /// The identity transform.
    pub fn identity() -> (r: Mat5)
        ensures
            r@ == identity5_spec(),
    {
        let mut e: [i64; 25] = [0; 25];
        e[0] = 1;
        e[6] = 1;
        e[12] = 1;
        e[18] = 1;
        e[24] = 1;
        let r = Mat5 { e };
        proof {
            assert(r@ =~= identity5_spec());
        }
        r
    }

    /// Entry `(i, j)`.
    pub fn at(&self, i: usize, j: usize) -> (r: i64)
        requires
            i < 5,
            j < 5,
        ensures
            r as int == ent(self@, i as int, j as int),
    {
        self.e[i * 5 + j]
    }
}

fn mul5_entry(a: &Mat5, b: &Mat5, i: usize, j: usize) -> (r: i64)
    requires
        i < 5,
        j < 5,
        mat5_bounded(a@, MAT5_ENTRY_MAX as int),
        mat5_bounded(b@, MAT5_ENTRY_MAX as int),
        mul5_fits(a@, b@),
    ensures
        r as int == mul5_ent(a@, b@, i as int, j as int),
{
    proof {
        let bound = MAT5_ENTRY_MAX as int;
        lemma_mul_bound(ent(a@, i as int, 0), ent(b@, 0, j as int), bound, bound);
        lemma_mul_bound(ent(a@, i as int, 1), ent(b@, 1, j as int), bound, bound);
        lemma_mul_bound(ent(a@, i as int, 2), ent(b@, 2, j as int), bound, bound);
        lemma_mul_bound(ent(a@, i as int, 3), ent(b@, 3, j as int), bound, bound);
        lemma_mul_bound(ent(a@, i as int, 4), ent(b@, 4, j as int), bound, bound);
    }
    let s: i128 = a.e[i * 5] as i128 * b.e[j] as i128
        + a.e[i * 5 + 1] as i128 * b.e[5 + j] as i128
        + a.e[i * 5 + 2] as i128 * b.e[10 + j] as i128
        + a.e[i * 5 + 3] as i128 * b.e[15 + j] as i128
        + a.e[i * 5 + 4] as i128 * b.e[20 + j] as i128;
    s as i64
}

/// The matrix product `a * b`.
pub fn mat5_mul(a: &Mat5, b: &Mat5) -> (r: Mat5)
    requires
        mat5_bounded(a@, MAT5_ENTRY_MAX as int),
        mat5_bounded(b@, MAT5_ENTRY_MAX as int),
        mul5_fits(a@, b@),
    ensures
        r@ == mul5_spec(a@, b@),
{
    let mut e: [i64; 25] = [0; 25];
    let mut i: usize = 0;
    while i < 5
        invariant
            i <= 5,
            mat5_bounded(a@, MAT5_ENTRY_MAX as int),
            mat5_bounded(b@, MAT5_ENTRY_MAX as int),
            mul5_fits(a@, b@),
            forall|k: int| 0 <= k < i * 5 ==> e@[k] as int == #[trigger] mul5_spec(a@, b@)[k],
        decreases 5 - i,
    {
        let mut j: usize = 0;
        while j < 5
            invariant
                i < 5,
                j <= 5,
                mat5_bounded(a@, MAT5_ENTRY_MAX as int),
                mat5_bounded(b@, MAT5_ENTRY_MAX as int),
                mul5_fits(a@, b@),
                forall|k: int| 0 <= k < i * 5 + j ==> e@[k] as int == #[trigger] mul5_spec(a@, b@)[k],
            decreases 5 - j,
        {
            e[i * 5 + j] = mul5_entry(a, b, i, j);
            j += 1;
        }
        i += 1;
    }
    let r = Mat5 { e };
    proof {
        assert(r@ =~= mul5_spec(a@, b@));
    }
    r
}

/// `m` composed with a translation by `v` (the translation applied first).
pub fn translate4(m: &Mat5, v: &Vec4) -> (r: Mat5)
    requires
        mat5_bounded(m@, MAT5_AFFINE_MAX as int),
        vec4_bounded(v@, MAT5_AFFINE_MAX as int),
    ensures
        r@ == translate4_spec(m@, v@),
{
    let mut e: [i64; 25] = m.e;
    let mut i: usize = 0;
    while i < 5
        invariant
            i <= 5,
            e@.len() == 25,
            mat5_bounded(m@, MAT5_AFFINE_MAX as int),
            vec4_bounded(v@, MAT5_AFFINE_MAX as int),
            forall|k: int| 0 <= k < 25 && k % 5 != 4 ==> e@[k] == m.e@[k],
            forall|k: int| 0 <= k < 25 && k % 5 == 4 && k < i * 5 ==>
                e@[k] as int == #[trigger] translate4_spec(m@, v@)[k],
            forall|k: int| 0 <= k < 25 && k % 5 == 4 && k >= i * 5 ==> e@[k] == m.e@[k],
        decreases 5 - i,
    {
        proof {
            let bound = MAT5_AFFINE_MAX as int;
            lemma_mul_bound(ent(m@, i as int, 0), v@[0], bound, bound);
            lemma_mul_bound(ent(m@, i as int, 1), v@[1], bound, bound);
            lemma_mul_bound(ent(m@, i as int, 2), v@[2], bound, bound);
            lemma_mul_bound(ent(m@, i as int, 3), v@[3], bound, bound);
        }
        let s: i128 = m.e[i * 5] as i128 * v.x as i128
            + m.e[i * 5 + 1] as i128 * v.y as i128
            + m.e[i * 5 + 2] as i128 * v.z as i128
            + m.e[i * 5 + 3] as i128 * v.w as i128
            + m.e[i * 5 + 4] as i128;
        e[i * 5 + 4] = s as i64;
        i += 1;
    }
    let r = Mat5 { e };
    proof {
        assert(r@ =~= translate4_spec(m@, v@));
    }
    r
}

/// Each column of `m` scaled by the matching coordinate of `v`.
pub fn scale4(m: &Mat5, v: &Vec5) -> (r: Mat5)
    requires
        mat5_bounded(m@, MAT5_AFFINE_MAX as int),
        -MAT5_AFFINE_MAX <= v.x <= MAT5_AFFINE_MAX,
        -MAT5_AFFINE_MAX <= v.y <= MAT5_AFFINE_MAX,
        -MAT5_AFFINE_MAX <= v.z <= MAT5_AFFINE_MAX,
        -MAT5_AFFINE_MAX <= v.w <= MAT5_AFFINE_MAX,
        -MAT5_AFFINE_MAX <= v.h <= MAT5_AFFINE_MAX,
    ensures
        r@ == scale4_spec(m@, v@),
{
    let mut e: [i64; 25] = [0; 25];
    let mut i: usize = 0;
    while i < 5
        invariant
            i <= 5,
            e@.len() == 25,
            mat5_bounded(m@, MAT5_AFFINE_MAX as int),
            -MAT5_AFFINE_MAX <= v.x <= MAT5_AFFINE_MAX,
            -MAT5_AFFINE_MAX <= v.y <= MAT5_AFFINE_MAX,
            -MAT5_AFFINE_MAX <= v.z <= MAT5_AFFINE_MAX,
            -MAT5_AFFINE_MAX <= v.w <= MAT5_AFFINE_MAX,
            -MAT5_AFFINE_MAX <= v.h <= MAT5_AFFINE_MAX,
            forall|k: int| 0 <= k < i * 5 ==> e@[k] as int == #[trigger] scale4_spec(m@, v@)[k],
        decreases 5 - i,
    {
        let mut j: usize = 0;
        while j < 5
            invariant
                i < 5,
                j <= 5,
                e@.len() == 25,
                mat5_bounded(m@, MAT5_AFFINE_MAX as int),
                -MAT5_AFFINE_MAX <= v.x <= MAT5_AFFINE_MAX,
                -MAT5_AFFINE_MAX <= v.y <= MAT5_AFFINE_MAX,
                -MAT5_AFFINE_MAX <= v.z <= MAT5_AFFINE_MAX,
                -MAT5_AFFINE_MAX <= v.w <= MAT5_AFFINE_MAX,
                -MAT5_AFFINE_MAX <= v.h <= MAT5_AFFINE_MAX,
                forall|k: int| 0 <= k < i * 5 + j ==> e@[k] as int == #[trigger] scale4_spec(m@, v@)[k],
            decreases 5 - j,
        {
            let vj: i64 = if j == 0 {
                v.x
            } else if j == 1 {
                v.y
            } else if j == 2 {
                v.z
            } else if j == 3 {
                v.w
            } else {
                v.h
            };
            proof {
                let bound = MAT5_AFFINE_MAX as int;
                lemma_mul_bound(m@[i as int * 5 + j as int], vj as int, bound, bound);
            }
            e[i * 5 + j] = (m.e[i * 5 + j] as i128 * vj as i128) as i64;
            j += 1;
        }
        i += 1;
    }
    let r = Mat5 { e };
    proof {
        assert(r@ =~= scale4_spec(m@, v@));
    }
    r
}

/// The view transform for a camera at `p` with basis `x`, `y`, `z`, `w`.
/// The basis vectors must be unit: over exact integers no normalization can
/// be performed here, so the rows equal the normalized basis exactly when
/// the basis comes in normalized, and the precondition demands that.
pub fn view4(p: &Vec4, x: &Vec4, y: &Vec4, z: &Vec4, w: &Vec4) -> (r: Mat5)
    requires
        vec4_bounded(p@, VIEW4_POS_MAX as int),
        vec4_bounded(x@, VIEW4_BASIS_MAX as int),
        vec4_bounded(y@, VIEW4_BASIS_MAX as int),
        vec4_bounded(z@, VIEW4_BASIS_MAX as int),
        vec4_bounded(w@, VIEW4_BASIS_MAX as int),
        dot4(x@, x@) == 1,
        dot4(y@, y@) == 1,
        dot4(z@, z@) == 1,
        dot4(w@, w@) == 1,
    ensures
        r@ == view4_spec(p@, x@, y@, z@, w@),
{
    let tx = neg_dot(x, p);
    let ty = neg_dot(y, p);
    let tz = neg_dot(z, p);
    let tw = neg_dot(w, p);
    let e: [i64; 25] = [
        x.x, x.y, x.z, x.w, tx,
        y.x, y.y, y.z, y.w, ty,
        z.x, z.y, z.z, z.w, tz,
        -w.x, -w.y, -w.z, -w.w, -tw,
        0, 0, 0, 0, 1,
    ];
    let r = Mat5 { e };
    proof {
        assert(r@ =~= view4_spec(p@, x@, y@, z@, w@));
    }
    r
}

/// The negated dot product of a basis vector with the position.
fn neg_dot(b: &Vec4, p: &Vec4) -> (r: i64)
    requires
        vec4_bounded(b@, VIEW4_BASIS_MAX as int),
        vec4_bounded(p@, VIEW4_POS_MAX as int),
    ensures
        r as int == -dot4(b@, p@),
        -288_230_376_151_711_744 <= r <= 288_230_376_151_711_744,
{
    proof {
        lemma_mul_bound(b@[0], p@[0], VIEW4_BASIS_MAX as int, VIEW4_POS_MAX as int);
        lemma_mul_bound(b@[1], p@[1], VIEW4_BASIS_MAX as int, VIEW4_POS_MAX as int);
        lemma_mul_bound(b@[2], p@[2], VIEW4_BASIS_MAX as int, VIEW4_POS_MAX as int);
        lemma_mul_bound(b@[3], p@[3], VIEW4_BASIS_MAX as int, VIEW4_POS_MAX as int);
    }
    let s: i128 = b.x as i128 * p.x as i128 + b.y as i128 * p.y as i128
        + b.z as i128 * p.z as i128 + b.w as i128 * p.w as i128;
    (-s) as i64
}

/// The perspective transform for near plane `n` and far plane `f`.
pub fn perspective4(n: i64, f: i64) -> (r: Mat5)
    requires
        -PERSP4_PLANE_MAX <= n <= PERSP4_PLANE_MAX,
        -PERSP4_PLANE_MAX <= f <= PERSP4_PLANE_MAX,
    ensures
        r@ == perspective4_spec(n as int, f as int),
{
    proof {
        lemma_mul_bound(n as int, f as int, PERSP4_PLANE_MAX as int, PERSP4_PLANE_MAX as int);
    }
    let nf: i64 = ((n as i128) * (f as i128)) as i64;
    let e: [i64; 25] = [
        n, 0, 0, 0, 0,
        0, n, 0, 0, 0,
        0, 0, n, 0, 0,
        0, 0, 0, n + f, -nf,
        0, 0, 0, 1, 0,
    ];
    let r = Mat5 { e };
    proof {
        assert(r@ =~= perspective4_spec(n as int, f as int));
    }
    r
}

/// The orthographic box transform from three near/far pairs for the spatial
/// axes and one pair along the w (depth) axis.
pub fn ortho4(
    x_near: i64, x_far: i64,
    y_near: i64, y_far: i64,
    z_near: i64, z_far: i64,
    w_near: i64, w_far: i64,
) -> (r: Mat5)
    requires
        -ORTHO4_PLANE_MAX <= x_near <= ORTHO4_PLANE_MAX,
        -ORTHO4_PLANE_MAX <= x_far <= ORTHO4_PLANE_MAX,
        -ORTHO4_PLANE_MAX <= y_near <= ORTHO4_PLANE_MAX,
        -ORTHO4_PLANE_MAX <= y_far <= ORTHO4_PLANE_MAX,
        -ORTHO4_PLANE_MAX <= z_near <= ORTHO4_PLANE_MAX,
        -ORTHO4_PLANE_MAX <= z_far <= ORTHO4_PLANE_MAX,
        -ORTHO4_PLANE_MAX <= w_near <= ORTHO4_PLANE_MAX,
        -ORTHO4_PLANE_MAX <= w_far <= ORTHO4_PLANE_MAX,
    ensures
        r@ == ortho4_spec(
            x_near as int, x_far as int,
            y_near as int, y_far as int,
            z_near as int, z_far as int,
            w_near as int, w_far as int,
        ),
{
    let rx: i64 = x_far - x_near;
    let ry: i64 = y_far - y_near;
    let rz: i64 = z_far - z_near;
    let rw: i64 = w_near - w_far;
    proof {
        let range: int = 2 * ORTHO4_PLANE_MAX as int;
        lemma_mul_bound(ry as int, rz as int, range, range);
        lemma_mul_bound(ry as int * rz as int, rw as int, range * range, range);
        lemma_mul_bound(rx as int, rz as int, range, range);
        lemma_mul_bound(rx as int * rz as int, rw as int, range * range, range);
        lemma_mul_bound(rx as int, ry as int, range, range);
        lemma_mul_bound(rx as int * ry as int, rw as int, range * range, range);
        lemma_mul_bound(rx as int * ry as int, rz as int, range * range, range);
        lemma_mul_bound(rx as int * ry as int * rz as int, rw as int, range * range * range, range);
    }
    let px: i64 = ((ry as i128 * rz as i128) * rw as i128) as i64;
    let py: i64 = ((rx as i128 * rz as i128) * rw as i128) as i64;
    let pz: i64 = ((rx as i128 * ry as i128) * rw as i128) as i64;
    let pw: i64 = ((rx as i128 * ry as i128) * rz as i128) as i64;
    let rr: i64 = (((rx as i128 * ry as i128) * rz as i128) * rw as i128) as i64;
    proof {
        let planes = ORTHO4_PLANE_MAX as int;
        let range: int = 2 * planes;
        lemma_mul_bound((x_near + x_far) as int, px as int, 2 * planes, range * range * range);
        lemma_mul_bound((y_near + y_far) as int, py as int, 2 * planes, range * range * range);
        lemma_mul_bound((z_near + z_far) as int, pz as int, 2 * planes, range * range * range);
        lemma_mul_bound((w_near + w_far) as int, pw as int, 2 * planes, range * range * range);
    }
    let tx: i64 = (-((x_near + x_far) as i128 * px as i128)) as i64;
    let ty: i64 = (-((y_near + y_far) as i128 * py as i128)) as i64;
    let tz: i64 = (-((z_near + z_far) as i128 * pz as i128)) as i64;
    let tw: i64 = (-((w_near + w_far) as i128 * pw as i128)) as i64;
    let e: [i64; 25] = [
        2 * px, 0, 0, 0, tx,
        0, 2 * py, 0, 0, ty,
        0, 0, 2 * pz, 0, tz,
        0, 0, 0, 2 * pw, tw,
        0, 0, 0, 0, rr,
    ];
    let r = Mat5 { e };
    proof {
        assert(r@ =~= ortho4_spec(
            x_near as int, x_far as int,
            y_near as int, y_far as int,
            z_near as int, z_far as int,
            w_near as int, w_far as int,
        ));
    }
    r
}

/// The symmetric orthographic box of the given half width on the spatial
/// axes, with the given near/far pair along the w axis.
pub fn ortho4_short(w_near: i64, w_far: i64, half_width: i64) -> (r: Mat5)
    requires
        -ORTHO4_PLANE_MAX <= w_near <= ORTHO4_PLANE_MAX,
        -ORTHO4_PLANE_MAX <= w_far <= ORTHO4_PLANE_MAX,
        0 <= half_width <= ORTHO4_PLANE_MAX,
    ensures
        r@ == ortho4_spec(
            -half_width as int, half_width as int,
            -half_width as int, half_width as int,
            -half_width as int, half_width as int,
            w_near as int, w_far as int,
        ),
{
    ortho4(
        -half_width, half_width,
        -half_width, half_width,
        -half_width, half_width,
        w_near, w_far,
    )
}

/// The matrix applied to the homogeneous point `(v, 1)`.
pub fn apply_point4(m: &Mat5, v: &Vec4) -> (r: Vec5)
    requires
        mat5_bounded(m@, MAT5_AFFINE_MAX as int),
        vec4_bounded(v@, MAT5_AFFINE_MAX as int),
    ensures
        r@ == apply4_spec(m@, v@),
{
    let r = Vec5 {
        x: apply_row(m, v, 0),
        y: apply_row(m, v, 1),
        z: apply_row(m, v, 2),
        w: apply_row(m, v, 3),
        h: apply_row(m, v, 4),
    };
    proof {
        assert(r@ =~= apply4_spec(m@, v@));
    }
    r
}

fn apply_row(m: &Mat5, v: &Vec4, i: usize) -> (r: i64)
    requires
        i < 5,
        mat5_bounded(m@, MAT5_AFFINE_MAX as int),
        vec4_bounded(v@, MAT5_AFFINE_MAX as int),
    ensures
        r as int == apply4_spec(m@, v@)[i as int],
{
    proof {
        let bound = MAT5_AFFINE_MAX as int;
        lemma_mul_bound(ent(m@, i as int, 0), v@[0], bound, bound);
        lemma_mul_bound(ent(m@, i as int, 1), v@[1], bound, bound);
        lemma_mul_bound(ent(m@, i as int, 2), v@[2], bound, bound);
        lemma_mul_bound(ent(m@, i as int, 3), v@[3], bound, bound);
    }
    let s: i128 = m.e[i * 5] as i128 * v.x as i128
        + m.e[i * 5 + 1] as i128 * v.y as i128
        + m.e[i * 5 + 2] as i128 * v.z as i128
        + m.e[i * 5 + 3] as i128 * v.w as i128
        + m.e[i * 5 + 4] as i128;
    s as i64
}

/// The view transform maps the camera's own position to the origin of
/// camera space: its translation column cancels the rotation applied to the
/// position exactly, leaving the homogeneous point `(0, 0, 0, 0, 1)`.
pub proof fn lemma_view4_maps_position_to_origin(
    p: Seq<int>,
    x: Seq<int>,
    y: Seq<int>,
    z: Seq<int>,
    w: Seq<int>,
)
    ensures
        apply4_spec(view4_spec(p, x, y, z, w), p) =~= seq![0int, 0, 0, 0, 1],
{
    let m = view4_spec(p, x, y, z, w);
    assert(ent(m, 4, 0) == 0);
    assert(ent(m, 4, 1) == 0);
    assert(ent(m, 4, 2) == 0);
    assert(ent(m, 4, 3) == 0);
    assert(ent(m, 4, 4) == 1);
    mul_zero(p[0]);
    mul_zero(p[1]);
    mul_zero(p[2]);
    mul_zero(p[3]);
    mul_neg_each(w[0], p[0]);
    mul_neg_each(w[1], p[1]);
    mul_neg_each(w[2], p[2]);
    mul_neg_each(w[3], p[3]);
    assert(apply4_spec(m, p)[0] == 0);
    assert(apply4_spec(m, p)[1] == 0);
    assert(apply4_spec(m, p)[2] == 0);
    assert(apply4_spec(m, p)[3] == 0);
    assert(apply4_spec(m, p)[4] == 1);
}

proof fn mul_neg_each(a: int, b: int) by (nonlinear_arith)
    ensures
        (-a) * b == -(a * b),
{
}

proof fn mul_zero(a: int) by (nonlinear_arith)
    ensures
        0 * a == 0,
{
}

/// Products of matrices with entries within `ba` and `bb` fit in 64 bits
/// whenever `5 * ba * bb` does, and the product's entries stay within it.
pub proof fn lemma_mul5_fits_from_bounds(a: Seq<int>, b: Seq<int>, ba: int, bb: int)
    requires
        mat5_bounded(a, ba),
        mat5_bounded(b, bb),
        0 <= ba,
        0 <= bb,
        5 * (ba * bb) <= i64::MAX,
    ensures
        mul5_fits(a, b),
        mat5_bounded(mul5_spec(a, b), 5 * (ba * bb)),
{
    assert forall|i: int, j: int| 0 <= i < 5 && 0 <= j < 5 implies
        -(5 * (ba * bb)) <= #[trigger] mul5_ent(a, b, i, j) <= 5 * (ba * bb) by {
        lemma_mul_bound(ent(a, i, 0), ent(b, 0, j), ba, bb);
        lemma_mul_bound(ent(a, i, 1), ent(b, 1, j), ba, bb);
        lemma_mul_bound(ent(a, i, 2), ent(b, 2, j), ba, bb);
        lemma_mul_bound(ent(a, i, 3), ent(b, 3, j), ba, bb);
        lemma_mul_bound(ent(a, i, 4), ent(b, 4, j), ba, bb);
    }
    assert forall|k: int| 0 <= k < 25 implies
        -(5 * (ba * bb)) <= #[trigger] mul5_spec(a, b)[k] <= 5 * (ba * bb) by {
        assert(mul5_spec(a, b)[k] == mul5_ent(a, b, k / 5, k % 5));
    }
}

/// The view transform's entries stay within `4 * bb * bp + 1` when the
/// position is within `bp` and the basis coordinates within `bb`.
pub proof fn lemma_view4_bounded(
    p: Seq<int>, x: Seq<int>, y: Seq<int>, z: Seq<int>, w: Seq<int>, bp: int, bb: int,
)
    requires
        vec4_bounded(p, bp),
        vec4_bounded(x, bb),
        vec4_bounded(y, bb),
        vec4_bounded(z, bb),
        vec4_bounded(w, bb),
        0 <= bp,
        1 <= bb,
    ensures
        mat5_bounded(view4_spec(p, x, y, z, w), 4 * (bb * bp) + bb + 1),
{
    lemma_mul_bound(x[0], p[0], bb, bp);
    lemma_mul_bound(x[1], p[1], bb, bp);
    lemma_mul_bound(x[2], p[2], bb, bp);
    lemma_mul_bound(x[3], p[3], bb, bp);
    lemma_mul_bound(y[0], p[0], bb, bp);
    lemma_mul_bound(y[1], p[1], bb, bp);
    lemma_mul_bound(y[2], p[2], bb, bp);
    lemma_mul_bound(y[3], p[3], bb, bp);
    lemma_mul_bound(z[0], p[0], bb, bp);
    lemma_mul_bound(z[1], p[1], bb, bp);
    lemma_mul_bound(z[2], p[2], bb, bp);
    lemma_mul_bound(z[3], p[3], bb, bp);
    lemma_mul_bound(w[0], p[0], bb, bp);
    lemma_mul_bound(w[1], p[1], bb, bp);
    lemma_mul_bound(w[2], p[2], bb, bp);
    lemma_mul_bound(w[3], p[3], bb, bp);
    let m = view4_spec(p, x, y, z, w);
    let bound = 4 * (bb * bp) + bb + 1;
    assert forall|k: int| 0 <= k < 25 implies -bound <= #[trigger] m[k] <= bound by {
        assert(m[0] == x[0] && m[1] == x[1] && m[2] == x[2] && m[3] == x[3]);
        assert(m[4] == -dot4(x, p));
        assert(m[9] == -dot4(y, p));
        assert(m[14] == -dot4(z, p));
        assert(m[19] == dot4(w, p));
        assert(m[15] == -w[0] && m[16] == -w[1] && m[17] == -w[2] && m[18] == -w[3]);
    }
}

/// The 4x4 linear block of a 5x5 homogeneous transform: rows and columns
/// 0 through 3.
pub open spec fn block4_of(t: Seq<int>) -> Seq<int> {
    Seq::new(16, |k: int| t[(k / 4) * 5 + (k % 4)])
}

/// The translation column of a 5x5 homogeneous transform: column 4, rows
/// 0 through 3.
pub open spec fn col4_of(t: Seq<int>) -> Seq<int> {
    Seq::new(4, |i: int| t[i * 5 + 4])
}

/// The divisor-contribution row of a 5x5 homogeneous transform: row 4,
/// columns 0 through 3.
pub open spec fn row4_of(t: Seq<int>) -> Seq<int> {
    Seq::new(4, |j: int| t[20 + j])
}

/// The 5x5 transform reassembled from a 4x4 block, a translation column, a
/// divisor row and the corner scalar.
pub open spec fn reconstruct5(block: Seq<int>, col: Seq<int>, row: Seq<int>, corner: int) -> Seq<int> {
    Seq::new(25, |k: int|
        if k == 24 {
            corner
        } else if k % 5 == 4 {
            col[k / 5]
        } else if k / 5 == 4 {
            row[k % 5]
        } else {
            block[(k / 5) * 4 + (k % 5)]
        })
}

/// Decomposing a 5x5 transform into block, column, row and corner and
/// reassembling them reproduces the transform exactly.
pub proof fn lemma_decompose_reconstruct(t: Seq<int>)
    requires
        t.len() == 25,
    ensures
        reconstruct5(block4_of(t), col4_of(t), row4_of(t), t[24]) =~= t,
{
    let r = reconstruct5(block4_of(t), col4_of(t), row4_of(t), t[24]);
    assert forall|k: int| 0 <= k < 25 implies r[k] == t[k] by {
        if k != 24 && k % 5 == 4 {
            assert(col4_of(t)[k / 5] == t[(k / 5) * 5 + 4]);
        } else if k != 24 && k / 5 == 4 {
            assert(row4_of(t)[k % 5] == t[20 + k % 5]);
        } else if k != 24 {
            assert(block4_of(t)[(k / 5) * 4 + (k % 5)] == t[(k / 5) * 5 + (k % 5)]);
        }
    }
}

/// Multiplying by the identity on the right changes nothing.
pub proof fn lemma_mul5_identity_right(m: Seq<int>)
    requires
        m.len() == 25,
    ensures
        mul5_spec(m, identity5_spec()) =~= m,
{
    let id = identity5_spec();
    assert(id[0] == 1 && id[6] == 1 && id[12] == 1 && id[18] == 1 && id[24] == 1);
    assert(id[1] == 0 && id[2] == 0 && id[3] == 0 && id[4] == 0);
    assert(id[5] == 0 && id[7] == 0 && id[8] == 0 && id[9] == 0);
    assert(id[10] == 0 && id[11] == 0 && id[13] == 0 && id[14] == 0);
    assert(id[15] == 0 && id[16] == 0 && id[17] == 0 && id[19] == 0);
    assert(id[20] == 0 && id[21] == 0 && id[22] == 0 && id[23] == 0);
    assert forall|k: int| 0 <= k < 25 implies mul5_spec(m, id)[k] == m[k] by {
        let i = k / 5;
        let j = k % 5;
        if j == 0 {
            assert(ent(id, 0, 0) == 1 && ent(id, 1, 0) == 0 && ent(id, 2, 0) == 0
                && ent(id, 3, 0) == 0 && ent(id, 4, 0) == 0);
            assert(mul5_ent(m, id, i, 0) == ent(m, i, 0));
            assert(ent(m, i, 0) == m[k]);
        } else if j == 1 {
            assert(ent(id, 0, 1) == 0 && ent(id, 1, 1) == 1 && ent(id, 2, 1) == 0
                && ent(id, 3, 1) == 0 && ent(id, 4, 1) == 0);
            assert(mul5_ent(m, id, i, 1) == ent(m, i, 1));
            assert(ent(m, i, 1) == m[k]);
        } else if j == 2 {
            assert(ent(id, 0, 2) == 0 && ent(id, 1, 2) == 0 && ent(id, 2, 2) == 1
                && ent(id, 3, 2) == 0 && ent(id, 4, 2) == 0);
            assert(mul5_ent(m, id, i, 2) == ent(m, i, 2));
            assert(ent(m, i, 2) == m[k]);
        } else if j == 3 {
            assert(ent(id, 0, 3) == 0 && ent(id, 1, 3) == 0 && ent(id, 2, 3) == 0
                && ent(id, 3, 3) == 1 && ent(id, 4, 3) == 0);
            assert(mul5_ent(m, id, i, 3) == ent(m, i, 3));
            assert(ent(m, i, 3) == m[k]);
        } else {
            assert(ent(id, 0, 4) == 0 && ent(id, 1, 4) == 0 && ent(id, 2, 4) == 0
                && ent(id, 3, 4) == 0 && ent(id, 4, 4) == 1);
            assert(mul5_ent(m, id, i, 4) == ent(m, i, 4));
            assert(ent(m, i, 4) == m[k]);
        }
    }
}

/// Round-trip law for the packed uniform payload: decomposing the combined
/// transform taken against the identity model and reassembling the pieces
/// reproduces the camera transform exactly.
pub proof fn lemma_payload_identity_roundtrip(t: Seq<int>)
    requires
        t.len() == 25,
    ensures
        ({
            let full = mul5_spec(t, identity5_spec());
            reconstruct5(block4_of(full), col4_of(full), row4_of(full), full[24]) =~= t
        }),
{
    lemma_mul5_identity_right(t);
    let full = mul5_spec(t, identity5_spec());
    assert(full =~= t);
    lemma_decompose_reconstruct(t);
    assert(reconstruct5(block4_of(full), col4_of(full), row4_of(full), full[24])
        =~= reconstruct5(block4_of(t), col4_of(t), row4_of(t), t[24]));
}

/// Bound on the fixed-point cosine and sine values the plane rotations take.
pub const ROTATE4_TRIG_MAX: i64 = 1_000_000_000;

fn rotate4_plane(i: usize, j: usize, c: i64, s: i64) -> (r: Mat5)
    requires
        i < 5,
        j < 5,
        i != j,
        -ROTATE4_TRIG_MAX <= c <= ROTATE4_TRIG_MAX,
        -ROTATE4_TRIG_MAX <= s <= ROTATE4_TRIG_MAX,
    ensures
        r@ == rotate4_spec(i as int, j as int, c as int, s as int),
{
    let mut e: [i64; 25] = [0; 25];
    e[0] = 1;
    e[6] = 1;
    e[12] = 1;
    e[18] = 1;
    e[24] = 1;
    e[i * 5 + i] = c;
    e[j * 5 + j] = c;
    e[i * 5 + j] = s;
    e[j * 5 + i] = -s;
    let r = Mat5 { e };
    proof {
        assert(r@ =~= rotate4_spec(i as int, j as int, c as int, s as int));
    }
    r
}

/// The rotation in the x-y plane with cosine `c` and sine `s`, supplied by
/// the caller's trigonometry.
pub fn ratate4_xy(c: i64, s: i64) -> (r: Mat5)
    requires
        -ROTATE4_TRIG_MAX <= c <= ROTATE4_TRIG_MAX,
        -ROTATE4_TRIG_MAX <= s <= ROTATE4_TRIG_MAX,
    ensures
        r@ == rotate4_spec(0, 1, c as int, s as int),
{
    rotate4_plane(0, 1, c, s)
}

/// The rotation in the y-z plane.
pub fn ratate4_yz(c: i64, s: i64) -> (r: Mat5)
    requires
        -ROTATE4_TRIG_MAX <= c <= ROTATE4_TRIG_MAX,
        -ROTATE4_TRIG_MAX <= s <= ROTATE4_TRIG_MAX,
    ensures
        r@ == rotate4_spec(1, 2, c as int, s as int),
{
    rotate4_plane(1, 2, c, s)
}

/// The rotation in the z-x plane.
pub fn ratate4_zx(c: i64, s: i64) -> (r: Mat5)
    requires
        -ROTATE4_TRIG_MAX <= c <= ROTATE4_TRIG_MAX,
        -ROTATE4_TRIG_MAX <= s <= ROTATE4_TRIG_MAX,
    ensures
        r@ == rotate4_spec(2, 0, c as int, s as int),
{
    rotate4_plane(2, 0, c, s)
}

/// The rotation in the x-w plane.
pub fn ratate4_xw(c: i64, s: i64) -> (r: Mat5)
    requires
        -ROTATE4_TRIG_MAX <= c <= ROTATE4_TRIG_MAX,
        -ROTATE4_TRIG_MAX <= s <= ROTATE4_TRIG_MAX,
    ensures
        r@ == rotate4_spec(0, 3, c as int, s as int),
{
    rotate4_plane(0, 3, c, s)
}

/// The rotation in the y-w plane.
pub fn ratate4_yw(c: i64, s: i64) -> (r: Mat5)
    requires
        -ROTATE4_TRIG_MAX <= c <= ROTATE4_TRIG_MAX,
        -ROTATE4_TRIG_MAX <= s <= ROTATE4_TRIG_MAX,
    ensures
        r@ == rotate4_spec(3, 1, c as int, s as int),
{
    rotate4_plane(3, 1, c, s)
}

/// The rotation in the z-w plane.
pub fn ratate4_zw(c: i64, s: i64) -> (r: Mat5)
    requires
        -ROTATE4_TRIG_MAX <= c <= ROTATE4_TRIG_MAX,
        -ROTATE4_TRIG_MAX <= s <= ROTATE4_TRIG_MAX,
    ensures
        r@ == rotate4_spec(3, 2, c as int, s as int),
{
    rotate4_plane(3, 2, c, s)
}

} // verus!
