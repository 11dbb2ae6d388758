//! 4x4 homogeneous transforms over exact integer scalars, used by the
//! embedded three-dimensional camera stage and by the packed uniform payload.

use vstd::prelude::*;
use crate::math4::lemma_mul_bound;

verus! {

/// A 4x4 matrix in row-major order: entry `(i, j)` is `e[i * 4 + j]`.
#[derive(Clone, Copy, Debug, PartialEq, Eq)]
pub struct Mat4 {
    pub e: [i64; 16],
}

impl View for Mat4 {
    type V = Seq<int>;

    open spec fn view(&self) -> Seq<int> {
        Seq::new(16, |k: int| self.e@[k] as int)
    }
}

/// Entry `(i, j)` of a row-major 4x4 matrix.
pub open spec fn ent4(m: Seq<int>, i: int, j: int) -> int {
    m[i * 4 + j]
}

/// All 16 entries lie within `[-b, b]`.
pub open spec fn mat4_bounded(m: Seq<int>, b: int) -> bool {
    forall|k: int| 0 <= k < 16 ==> -b <= #[trigger] m[k] <= b
}

/// Entry `(i, j)` of the product of two 4x4 matrices.
pub open spec fn mul4_ent(a: Seq<int>, b: Seq<int>, i: int, j: int) -> int {
    ent4(a, i, 0) * ent4(b, 0, j) + ent4(a, i, 1) * ent4(b, 1, j) + ent4(a, i, 2) * ent4(b, 2, j)
        + ent4(a, i, 3) * ent4(b, 3, j)
}

/// The product of two 4x4 matrices.
pub open spec fn mul4_spec(a: Seq<int>, b: Seq<int>) -> Seq<int> {
    Seq::new(16, |k: int| mul4_ent(a, b, k / 4, k % 4))
}

/// Every entry of the product fits in a 64-bit result.
pub open spec fn mul4_fits(a: Seq<int>, b: Seq<int>) -> bool {
    forall|i: int, j: int| 0 <= i < 4 && 0 <= j < 4 ==>
        i64::MIN <= #[trigger] mul4_ent(a, b, i, j) <= i64::MAX
}

/// The 4x4 identity transform.
pub open spec fn identity4_spec() -> Seq<int> {
    seq![
        1, 0, 0, 0,
        0, 1, 0, 0,
        0, 0, 1, 0,
        0, 0, 0, 1,
    ]
}

/// Bound on matrix entries accepted by `mat4_mul`.
pub const MAT4_ENTRY_MAX: i64 = 1_152_921_504_606_846_976;

impl Mat4 {
    /// The identity transform.
    pub fn identity() -> (r: Mat4)
        ensures
            r@ == identity4_spec(),
    {
        let mut e: [i64; 16] = [0; 16];
        e[0] = 1;
        e[5] = 1;
        e[10] = 1;
        e[15] = 1;
        let r = Mat4 { e };
        proof {
            assert(r@ =~= identity4_spec());
        }
        r
    }

    /// Entry `(i, j)`.
    pub fn at(&self, i: usize, j: usize) -> (r: i64)
        requires
            i < 4,
            j < 4,
        ensures
            r as int == ent4(self@, i as int, j as int),
    {
        self.e[i * 4 + j]
    }
}

fn mul4_entry(a: &Mat4, b: &Mat4, i: usize, j: usize) -> (r: i64)
    requires
        i < 4,
        j < 4,
        mat4_bounded(a@, MAT4_ENTRY_MAX as int),
        mat4_bounded(b@, MAT4_ENTRY_MAX as int),
        mul4_fits(a@, b@),
    ensures
        r as int == mul4_ent(a@, b@, i as int, j as int),
{
    proof {
        let bound = MAT4_ENTRY_MAX as int;
        lemma_mul_bound(ent4(a@, i as int, 0), ent4(b@, 0, j as int), bound, bound);
        lemma_mul_bound(ent4(a@, i as int, 1), ent4(b@, 1, j as int), bound, bound);
        lemma_mul_bound(ent4(a@, i as int, 2), ent4(b@, 2, j as int), bound, bound);
        lemma_mul_bound(ent4(a@, i as int, 3), ent4(b@, 3, j as int), bound, bound);
    }
    let s: i128 = a.e[i * 4] as i128 * b.e[j] as i128
        + a.e[i * 4 + 1] as i128 * b.e[4 + j] as i128
        + a.e[i * 4 + 2] as i128 * b.e[8 + j] as i128
        + a.e[i * 4 + 3] as i128 * b.e[12 + j] as i128;
    s as i64
}

/// The matrix product `a * b`.
pub fn mat4_mul(a: &Mat4, b: &Mat4) -> (r: Mat4)
    requires
        mat4_bounded(a@, MAT4_ENTRY_MAX as int),
        mat4_bounded(b@, MAT4_ENTRY_MAX as int),
        mul4_fits(a@, b@),
    ensures
        r@ == mul4_spec(a@, b@),
{
    let mut e: [i64; 16] = [0; 16];
    let mut i: usize = 0;
    while i < 4
        invariant
            i <= 4,
            mat4_bounded(a@, MAT4_ENTRY_MAX as int),
            mat4_bounded(b@, MAT4_ENTRY_MAX as int),
            mul4_fits(a@, b@),
            forall|k: int| 0 <= k < i * 4 ==> e@[k] as int == #[trigger] mul4_spec(a@, b@)[k],
        decreases 4 - i,
    {
        let mut j: usize = 0;
        while j < 4
            invariant
                i < 4,
                j <= 4,
                mat4_bounded(a@, MAT4_ENTRY_MAX as int),
                mat4_bounded(b@, MAT4_ENTRY_MAX as int),
                mul4_fits(a@, b@),
                forall|k: int| 0 <= k < i * 4 + j ==> e@[k] as int == #[trigger] mul4_spec(a@, b@)[k],
            decreases 4 - j,
        {
            e[i * 4 + j] = mul4_entry(a, b, i, j);
            j += 1;
        }
        i += 1;
    }
    let r = Mat4 { e };
    proof {
        assert(r@ =~= mul4_spec(a@, b@));
    }
    r
}

/// Products of matrices with entries within `ba` and `bb` fit in 64 bits
/// whenever `4 * ba * bb` does, and the product's entries stay within it.
pub proof fn lemma_mul4_fits_from_bounds(a: Seq<int>, b: Seq<int>, ba: int, bb: int)
    requires
        mat4_bounded(a, ba),
        mat4_bounded(b, bb),
        0 <= ba,
        0 <= bb,
        4 * (ba * bb) <= i64::MAX,
    ensures
        mul4_fits(a, b),
        mat4_bounded(mul4_spec(a, b), 4 * (ba * bb)),
{
    assert forall|i: int, j: int| 0 <= i < 4 && 0 <= j < 4 implies
        -(4 * (ba * bb)) <= #[trigger] mul4_ent(a, b, i, j) <= 4 * (ba * bb) by {
        lemma_mul_bound(ent4(a, i, 0), ent4(b, 0, j), ba, bb);
        lemma_mul_bound(ent4(a, i, 1), ent4(b, 1, j), ba, bb);
        lemma_mul_bound(ent4(a, i, 2), ent4(b, 2, j), ba, bb);
        lemma_mul_bound(ent4(a, i, 3), ent4(b, 3, j), ba, bb);
    }
    assert forall|k: int| 0 <= k < 16 implies
        -(4 * (ba * bb)) <= #[trigger] mul4_spec(a, b)[k] <= 4 * (ba * bb) by {
        assert(mul4_spec(a, b)[k] == mul4_ent(a, b, k / 4, k % 4));
    }
}

} // verus!
