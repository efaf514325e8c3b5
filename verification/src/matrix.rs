//! The 4x4 row-major matrix, its construction helpers, and the
//! multiplication kernels: the scalar ground truth, the two
//! vector-unit-shaped kernels, and the dispatching entry point.
//!
//! A [`Mat4`] is four [`Vec4`] rows; a row is exactly the 4-wide operand an
//! accelerated kernel loads in one go, so the kernels here never reach past
//! a value's own storage. The scalar kernel computes each destination entry
//! as the dot product of a row of `a` with a column of `b`, lane products
//! accumulated in ascending order; the vector-unit kernels build each
//! destination row as a linear combination of the rows of `b`, one broadcast
//! multiply and one 4-wide add per step, in the same ascending order. Over
//! exact integer coordinates the two shapes return identical matrices, and
//! the laws at the bottom of this file prove it.

use crate::arch::Arch;
use crate::vector::Vec4;
use crate::vector::Vec4v;
use crate::vector::dot4;
use crate::vector::dot4_fits;
use vstd::prelude::*;

verus! {

/// A 4x4 matrix of exact integer entries, addressed row first.
#[derive(Clone, Debug, PartialEq, Eq, Structural)]
pub struct Mat4 {
    pub row0: Vec4,
    pub row1: Vec4,
    pub row2: Vec4,
    pub row3: Vec4,
}

/// The mathematical value of a [`Mat4`]: four unbounded integer rows.
pub struct Mat4v {
    pub row0: Vec4v,
    pub row1: Vec4v,
    pub row2: Vec4v,
    pub row3: Vec4v,
}

impl View for Mat4 {
    type V = Mat4v;

    open spec fn view(&self) -> Mat4v {
        Mat4v { row0: self.row0@, row1: self.row1@, row2: self.row2@, row3: self.row3@ }
    }
}

/// Column 0 of a matrix, read as a 4-wide operand.
pub open spec fn col0(m: Mat4v) -> Vec4v {
    Vec4v { x: m.row0.x, y: m.row1.x, z: m.row2.x, w: m.row3.x }
}

/// Column 1 of a matrix, read as a 4-wide operand.
pub open spec fn col1(m: Mat4v) -> Vec4v {
    Vec4v { x: m.row0.y, y: m.row1.y, z: m.row2.y, w: m.row3.y }
}

/// Column 2 of a matrix, read as a 4-wide operand.
pub open spec fn col2(m: Mat4v) -> Vec4v {
    Vec4v { x: m.row0.z, y: m.row1.z, z: m.row2.z, w: m.row3.z }
}

/// Column 3 of a matrix, read as a 4-wide operand.
pub open spec fn col3(m: Mat4v) -> Vec4v {
    Vec4v { x: m.row0.w, y: m.row1.w, z: m.row2.w, w: m.row3.w }
}

/// The identity matrix.
pub open spec fn identity_v() -> Mat4v {
    Mat4v {
        row0: Vec4v { x: 1, y: 0, z: 0, w: 0 },
        row1: Vec4v { x: 0, y: 1, z: 0, w: 0 },
        row2: Vec4v { x: 0, y: 0, z: 1, w: 0 },
        row3: Vec4v { x: 0, y: 0, z: 0, w: 1 },
    }
}

/// The zero matrix.
pub open spec fn zero_v() -> Mat4v {
    Mat4v {
        row0: Vec4v { x: 0, y: 0, z: 0, w: 0 },
        row1: Vec4v { x: 0, y: 0, z: 0, w: 0 },
        row2: Vec4v { x: 0, y: 0, z: 0, w: 0 },
        row3: Vec4v { x: 0, y: 0, z: 0, w: 0 },
    }
}

/// Elementwise sum of two rows.
pub open spec fn v_add(a: Vec4v, b: Vec4v) -> Vec4v {
    Vec4v { x: a.x + b.x, y: a.y + b.y, z: a.z + b.z, w: a.w + b.w }
}

/// A row scaled by a broadcast factor, the factor on the left as a vector
/// unit's broadcast-multiply forms each lane product.
pub open spec fn v_scale(s: int, v: Vec4v) -> Vec4v {
    Vec4v { x: s * v.x, y: s * v.y, z: s * v.z, w: s * v.w }
}

/// Elementwise matrix sum.
pub open spec fn mat_add(a: Mat4v, b: Mat4v) -> Mat4v {
    Mat4v {
        row0: v_add(a.row0, b.row0),
        row1: v_add(a.row1, b.row1),
        row2: v_add(a.row2, b.row2),
        row3: v_add(a.row3, b.row3),
    }
}

/// One result row of the scalar ground-truth product: row `r` of `a` dotted
/// with each column of `b`, lane products accumulated in ascending order.
pub open spec fn row_times(r: Vec4v, b: Mat4v) -> Vec4v {
    Vec4v { x: dot4(r, col0(b)), y: dot4(r, col1(b)), z: dot4(r, col2(b)), w: dot4(r, col3(b)) }
}

/// The scalar ground-truth matrix product: entry (i, j) is the dot product
/// of row i of `a` and column j of `b`.
pub open spec fn mat_mul(a: Mat4v, b: Mat4v) -> Mat4v {
    Mat4v {
        row0: row_times(a.row0, b),
        row1: row_times(a.row1, b),
        row2: row_times(a.row2, b),
        row3: row_times(a.row3, b),
    }
}

/// One result row in the vector-unit shape: a linear combination of the four
/// rows of `b`, one broadcast multiply and one 4-wide add per step, the
/// accumulator starting at row zero and folding in ascending order.
pub open spec fn row_combine(r: Vec4v, b: Mat4v) -> Vec4v {
    v_add(
        v_add(v_add(v_scale(r.x, b.row0), v_scale(r.y, b.row1)), v_scale(r.z, b.row2)),
        v_scale(r.w, b.row3),
    )
}

/// The vector-unit-shaped matrix product: each result row a linear
/// combination of the rows of `b`.
pub open spec fn mat_mul_rows(a: Mat4v, b: Mat4v) -> Mat4v {
    Mat4v {
        row0: row_combine(a.row0, b),
        row1: row_combine(a.row1, b),
        row2: row_combine(a.row2, b),
        row3: row_combine(a.row3, b),
    }
}

/// A matrix applied to a column: each component a row of `m` dotted with `v`.
pub open spec fn mat_vec(m: Mat4v, v: Vec4v) -> Vec4v {
    Vec4v { x: dot4(m.row0, v), y: dot4(m.row1, v), z: dot4(m.row2, v), w: dot4(m.row3, v) }
}

/// Every one of the sixteen row-by-column dot products of a matrix product
/// fits in 64 bits, whatever order a kernel accumulates it in.
pub open spec fn mul_fits(a: Mat4v, b: Mat4v) -> bool {
    &&& dot4_fits(a.row0, col0(b))
    &&& dot4_fits(a.row0, col1(b))
    &&& dot4_fits(a.row0, col2(b))
    &&& dot4_fits(a.row0, col3(b))
    &&& dot4_fits(a.row1, col0(b))
    &&& dot4_fits(a.row1, col1(b))
    &&& dot4_fits(a.row1, col2(b))
    &&& dot4_fits(a.row1, col3(b))
    &&& dot4_fits(a.row2, col0(b))
    &&& dot4_fits(a.row2, col1(b))
    &&& dot4_fits(a.row2, col2(b))
    &&& dot4_fits(a.row2, col3(b))
    &&& dot4_fits(a.row3, col0(b))
    &&& dot4_fits(a.row3, col1(b))
    &&& dot4_fits(a.row3, col2(b))
    &&& dot4_fits(a.row3, col3(b))
}

/// Every entry of the elementwise sum of two matrices fits in 64 bits.
pub open spec fn add_fits(a: Mat4v, b: Mat4v) -> bool {
    &&& i64::MIN <= a.row0.x + b.row0.x <= i64::MAX
    &&& i64::MIN <= a.row0.y + b.row0.y <= i64::MAX
    &&& i64::MIN <= a.row0.z + b.row0.z <= i64::MAX
    &&& i64::MIN <= a.row0.w + b.row0.w <= i64::MAX
    &&& i64::MIN <= a.row1.x + b.row1.x <= i64::MAX
    &&& i64::MIN <= a.row1.y + b.row1.y <= i64::MAX
    &&& i64::MIN <= a.row1.z + b.row1.z <= i64::MAX
    &&& i64::MIN <= a.row1.w + b.row1.w <= i64::MAX
    &&& i64::MIN <= a.row2.x + b.row2.x <= i64::MAX
    &&& i64::MIN <= a.row2.y + b.row2.y <= i64::MAX
    &&& i64::MIN <= a.row2.z + b.row2.z <= i64::MAX
    &&& i64::MIN <= a.row2.w + b.row2.w <= i64::MAX
    &&& i64::MIN <= a.row3.x + b.row3.x <= i64::MAX
    &&& i64::MIN <= a.row3.y + b.row3.y <= i64::MAX
    &&& i64::MIN <= a.row3.z + b.row3.z <= i64::MAX
    &&& i64::MIN <= a.row3.w + b.row3.w <= i64::MAX
}

/// One broadcast-multiply step of a vector-unit kernel: the factor `s`
/// (one entry of `a`'s current row) multiplied across the four lanes of a
/// row of `b`.
fn scale4(s: i64, v: &Vec4) -> (r: Vec4)
    requires
        i64::MIN <= s * v.x <= i64::MAX,
        i64::MIN <= s * v.y <= i64::MAX,
        i64::MIN <= s * v.z <= i64::MAX,
        i64::MIN <= s * v.w <= i64::MAX,
    ensures
        r@ == v_scale(s as int, v@),
{
    Vec4 { x: s * v.x, y: s * v.y, z: s * v.z, w: s * v.w }
}

impl Mat4 {
    /// The identity matrix.
    pub fn new_identity() -> (r: Mat4)
        ensures
            r@ == identity_v(),
    {
        Mat4 {
            row0: Vec4 { x: 1, y: 0, z: 0, w: 0 },
            row1: Vec4 { x: 0, y: 1, z: 0, w: 0 },
            row2: Vec4 { x: 0, y: 0, z: 1, w: 0 },
            row3: Vec4 { x: 0, y: 0, z: 0, w: 1 },
        }
    }

    /// The zero matrix.
    pub fn new_zero() -> (r: Mat4)
        ensures
            r@ == zero_v(),
    {
        Mat4 {
            row0: Vec4 { x: 0, y: 0, z: 0, w: 0 },
            row1: Vec4 { x: 0, y: 0, z: 0, w: 0 },
            row2: Vec4 { x: 0, y: 0, z: 0, w: 0 },
            row3: Vec4 { x: 0, y: 0, z: 0, w: 0 },
        }
    }

    /// Elementwise sum.
    pub fn add(&self, other: &Mat4) -> (r: Mat4)
        requires
            add_fits(self@, other@),
        ensures
            r@ == mat_add(self@, other@),
    {
        Mat4 {
            row0: self.row0.add(&other.row0),
            row1: self.row1.add(&other.row1),
            row2: self.row2.add(&other.row2),
            row3: self.row3.add(&other.row3),
        }
    }

    /// The scalar ground-truth product: entry (i, j) is the dot product of
    /// row i of `self` and column j of `other`, lane products accumulated in
    /// ascending order.
    pub fn mul(&self, other: &Mat4) -> (r: Mat4)
        requires
            mul_fits(self@, other@),
        ensures
            r@ == mat_mul(self@, other@),
    {
        let c0 = Vec4 { x: other.row0.x, y: other.row1.x, z: other.row2.x, w: other.row3.x };
        let c1 = Vec4 { x: other.row0.y, y: other.row1.y, z: other.row2.y, w: other.row3.y };
        let c2 = Vec4 { x: other.row0.z, y: other.row1.z, z: other.row2.z, w: other.row3.z };
        let c3 = Vec4 { x: other.row0.w, y: other.row1.w, z: other.row2.w, w: other.row3.w };
        Mat4 {
            row0: Vec4 {
                x: self.row0.dot(&c0),
                y: self.row0.dot(&c1),
                z: self.row0.dot(&c2),
                w: self.row0.dot(&c3),
            },
            row1: Vec4 {
                x: self.row1.dot(&c0),
                y: self.row1.dot(&c1),
                z: self.row1.dot(&c2),
                w: self.row1.dot(&c3),
            },
            row2: Vec4 {
                x: self.row2.dot(&c0),
                y: self.row2.dot(&c1),
                z: self.row2.dot(&c2),
                w: self.row2.dot(&c3),
            },
            row3: Vec4 {
                x: self.row3.dot(&c0),
                y: self.row3.dot(&c1),
                z: self.row3.dot(&c2),
                w: self.row3.dot(&c3),
            },
        }
    }

    /// The x86-family kernel: each result row built as a linear combination
    /// of the rows of `other`, one broadcast multiply and one 4-wide add per
    /// step, reading each row of `other` as one 4-wide operand.
    pub fn mul_simd(&self, other: &Mat4) -> (r: Mat4)
        requires
            mul_fits(self@, other@),
        ensures
            r@ == mat_mul_rows(self@, other@),
            r@ == mat_mul(self@, other@),
    {
        let r0a = scale4(self.row0.x, &other.row0);
        let r0b = r0a.add(&scale4(self.row0.y, &other.row1));
        let r0c = r0b.add(&scale4(self.row0.z, &other.row2));
        let row0 = r0c.add(&scale4(self.row0.w, &other.row3));
        let r1a = scale4(self.row1.x, &other.row0);
        let r1b = r1a.add(&scale4(self.row1.y, &other.row1));
        let r1c = r1b.add(&scale4(self.row1.z, &other.row2));
        let row1 = r1c.add(&scale4(self.row1.w, &other.row3));
        let r2a = scale4(self.row2.x, &other.row0);
        let r2b = r2a.add(&scale4(self.row2.y, &other.row1));
        let r2c = r2b.add(&scale4(self.row2.z, &other.row2));
        let row2 = r2c.add(&scale4(self.row2.w, &other.row3));
        let r3a = scale4(self.row3.x, &other.row0);
        let r3b = r3a.add(&scale4(self.row3.y, &other.row1));
        let r3c = r3b.add(&scale4(self.row3.z, &other.row2));
        let row3 = r3c.add(&scale4(self.row3.w, &other.row3));
        Mat4 { row0, row1, row2, row3 }
    }

    /// The ARM-family kernel: the same row-combination shape as
    /// [`Mat4::mul_simd`], one broadcast multiply and one 4-wide add per
    /// step in ascending order.
    pub fn mul_neon(&self, other: &Mat4) -> (r: Mat4)
        requires
            mul_fits(self@, other@),
        ensures
            r@ == mat_mul_rows(self@, other@),
            r@ == mat_mul(self@, other@),
    {
        let r0a = scale4(self.row0.x, &other.row0);
        let r0b = r0a.add(&scale4(self.row0.y, &other.row1));
        let r0c = r0b.add(&scale4(self.row0.z, &other.row2));
        let row0 = r0c.add(&scale4(self.row0.w, &other.row3));
        let r1a = scale4(self.row1.x, &other.row0);
        let r1b = r1a.add(&scale4(self.row1.y, &other.row1));
        let r1c = r1b.add(&scale4(self.row1.z, &other.row2));
        let row1 = r1c.add(&scale4(self.row1.w, &other.row3));
        let r2a = scale4(self.row2.x, &other.row0);
        let r2b = r2a.add(&scale4(self.row2.y, &other.row1));
        let r2c = r2b.add(&scale4(self.row2.z, &other.row2));
        let row2 = r2c.add(&scale4(self.row2.w, &other.row3));
        let r3a = scale4(self.row3.x, &other.row0);
        let r3b = r3a.add(&scale4(self.row3.y, &other.row1));
        let r3c = r3b.add(&scale4(self.row3.z, &other.row2));
        let row3 = r3c.add(&scale4(self.row3.w, &other.row3));
        Mat4 { row0, row1, row2, row3 }
    }

    /// The architecture-independent entry point: resolves to exactly one
    /// kernel per capability tag. An x86-family tag selects the x86 kernel,
    /// an ARM-family tag the ARM kernel, and any other target falls back to
    /// the scalar ground truth, so every target has a kernel and none
    /// degrades silently inside an accelerated path.
    pub fn mul_auto(&self, other: &Mat4, arch: Arch) -> (r: Mat4)
        requires
            mul_fits(self@, other@),
        ensures
            r@ == mat_mul(self@, other@),
            arch == Arch::X86Family ==> r@ == mat_mul_rows(self@, other@),
            arch == Arch::ArmFamily ==> r@ == mat_mul_rows(self@, other@),
    {
        match arch {
            Arch::X86Family => self.mul_simd(other),
            Arch::ArmFamily => self.mul_neon(other),
            Arch::Other => self.mul(other),
        }
    }

    /// A scaling transform: `sx`, `sy`, `sz` on the diagonal.
    pub fn scale(sx: i64, sy: i64, sz: i64) -> (r: Mat4)
        ensures
            r@ == (Mat4v {
                row0: Vec4v { x: sx as int, y: 0, z: 0, w: 0 },
                row1: Vec4v { x: 0, y: sy as int, z: 0, w: 0 },
                row2: Vec4v { x: 0, y: 0, z: sz as int, w: 0 },
                row3: Vec4v { x: 0, y: 0, z: 0, w: 1 },
            }),
    {
        Mat4 {
            row0: Vec4 { x: sx, y: 0, z: 0, w: 0 },
            row1: Vec4 { x: 0, y: sy, z: 0, w: 0 },
            row2: Vec4 { x: 0, y: 0, z: sz, w: 0 },
            row3: Vec4 { x: 0, y: 0, z: 0, w: 1 },
        }
    }

    /// A rotation about the x axis, from the precomputed cosine and sine of
    /// the angle.
    pub fn rotate_x(cos_theta: i64, sin_theta: i64) -> (r: Mat4)
        requires
            i64::MIN < sin_theta,
        ensures
            r@ == (Mat4v {
                row0: Vec4v { x: 1, y: 0, z: 0, w: 0 },
                row1: Vec4v { x: 0, y: cos_theta as int, z: -(sin_theta as int), w: 0 },
                row2: Vec4v { x: 0, y: sin_theta as int, z: cos_theta as int, w: 0 },
                row3: Vec4v { x: 0, y: 0, z: 0, w: 1 },
            }),
    {
        Mat4 {
            row0: Vec4 { x: 1, y: 0, z: 0, w: 0 },
            row1: Vec4 { x: 0, y: cos_theta, z: -sin_theta, w: 0 },
            row2: Vec4 { x: 0, y: sin_theta, z: cos_theta, w: 0 },
            row3: Vec4 { x: 0, y: 0, z: 0, w: 1 },
        }
    }

    /// A rotation about the y axis, from the precomputed cosine and sine of
    /// the angle.
    pub fn rotate_y(cos_theta: i64, sin_theta: i64) -> (r: Mat4)
        requires
            i64::MIN < sin_theta,
        ensures
            r@ == (Mat4v {
                row0: Vec4v { x: cos_theta as int, y: 0, z: sin_theta as int, w: 0 },
                row1: Vec4v { x: 0, y: 1, z: 0, w: 0 },
                row2: Vec4v { x: -(sin_theta as int), y: 0, z: cos_theta as int, w: 0 },
                row3: Vec4v { x: 0, y: 0, z: 0, w: 1 },
            }),
    {
        Mat4 {
            row0: Vec4 { x: cos_theta, y: 0, z: sin_theta, w: 0 },
            row1: Vec4 { x: 0, y: 1, z: 0, w: 0 },
            row2: Vec4 { x: -sin_theta, y: 0, z: cos_theta, w: 0 },
            row3: Vec4 { x: 0, y: 0, z: 0, w: 1 },
        }
    }

    /// A rotation about the z axis, from the precomputed cosine and sine of
    /// the angle.
    pub fn rotate_z(cos_theta: i64, sin_theta: i64) -> (r: Mat4)
        requires
            i64::MIN < sin_theta,
        ensures
            r@ == (Mat4v {
                row0: Vec4v { x: cos_theta as int, y: -(sin_theta as int), z: 0, w: 0 },
                row1: Vec4v { x: sin_theta as int, y: cos_theta as int, z: 0, w: 0 },
                row2: Vec4v { x: 0, y: 0, z: 1, w: 0 },
                row3: Vec4v { x: 0, y: 0, z: 0, w: 1 },
            }),
    {
        Mat4 {
            row0: Vec4 { x: cos_theta, y: -sin_theta, z: 0, w: 0 },
            row1: Vec4 { x: sin_theta, y: cos_theta, z: 0, w: 0 },
            row2: Vec4 { x: 0, y: 0, z: 1, w: 0 },
            row3: Vec4 { x: 0, y: 0, z: 0, w: 1 },
        }
    }

    /// A translation transform: `tx`, `ty`, `tz` in the last column.
    pub fn translate(tx: i64, ty: i64, tz: i64) -> (r: Mat4)
        ensures
            r@ == (Mat4v {
                row0: Vec4v { x: 1, y: 0, z: 0, w: tx as int },
                row1: Vec4v { x: 0, y: 1, z: 0, w: ty as int },
                row2: Vec4v { x: 0, y: 0, z: 1, w: tz as int },
                row3: Vec4v { x: 0, y: 0, z: 0, w: 1 },
            }),
    {
        Mat4 {
            row0: Vec4 { x: 1, y: 0, z: 0, w: tx },
            row1: Vec4 { x: 0, y: 1, z: 0, w: ty },
            row2: Vec4 { x: 0, y: 0, z: 1, w: tz },
            row3: Vec4 { x: 0, y: 0, z: 0, w: 1 },
        }
    }
}

/// Law: the vector-unit row-combination shape returns the very matrix of
/// the scalar ground truth. Exact arithmetic makes the agreement exact; the
/// tolerance the floating-point kernels quote covers only rounding.
pub proof fn lemma_mul_kernels_agree(a: Mat4v, b: Mat4v)
    ensures
        mat_mul_rows(a, b) == mat_mul(a, b),
{
}

/// Law: the identity matrix is neutral on both sides of the product,
/// exactly.
pub proof fn lemma_mul_identity(m: Mat4v)
    ensures
        mat_mul(m, identity_v()) == m,
        mat_mul(identity_v(), m) == m,
{
    broadcast use vstd::arithmetic::mul::group_mul_basics;

}

/// Law: the zero matrix absorbs the product on both sides, exactly.
pub proof fn lemma_mul_zero(m: Mat4v)
    ensures
        mat_mul(m, zero_v()) == zero_v(),
        mat_mul(zero_v(), m) == zero_v(),
{
    broadcast use vstd::arithmetic::mul::group_mul_basics;

}

/// A four-term sum distributed over a factor on its right, each product
/// reassociated onto the inner one.
proof fn lemma_distribute_right(u0: int, u1: int, u2: int, u3: int, b0: int, b1: int, b2: int, b3: int, v: int)
    ensures
        (u0 * b0 + u1 * b1 + u2 * b2 + u3 * b3) * v
        == u0 * (b0 * v) + u1 * (b1 * v) + u2 * (b2 * v) + u3 * (b3 * v),
{
    vstd::arithmetic::mul::lemma_mul_is_distributive_add_other_way(v, u0 * b0 + u1 * b1 + u2 * b2, u3 * b3);
    vstd::arithmetic::mul::lemma_mul_is_distributive_add_other_way(v, u0 * b0 + u1 * b1, u2 * b2);
    vstd::arithmetic::mul::lemma_mul_is_distributive_add_other_way(v, u0 * b0, u1 * b1);
    vstd::arithmetic::mul::lemma_mul_is_associative(u0, b0, v);
    vstd::arithmetic::mul::lemma_mul_is_associative(u1, b1, v);
    vstd::arithmetic::mul::lemma_mul_is_associative(u2, b2, v);
    vstd::arithmetic::mul::lemma_mul_is_associative(u3, b3, v);
}

/// A factor distributed over a four-term sum on its right.
proof fn lemma_distribute_left(u: int, q0: int, q1: int, q2: int, q3: int)
    ensures
        u * (q0 + q1 + q2 + q3) == u * q0 + u * q1 + u * q2 + u * q3,
{
    vstd::arithmetic::mul::lemma_mul_is_distributive_add(u, q0 + q1 + q2, q3);
    vstd::arithmetic::mul::lemma_mul_is_distributive_add(u, q0 + q1, q2);
    vstd::arithmetic::mul::lemma_mul_is_distributive_add(u, q0, q1);
}

/// The bilinear exchange behind associativity: dotting `v` against the row
/// `u` has already folded through `b` equals dotting `u` against the column
/// `b` has already folded onto `v`.
proof fn lemma_row_exchange(u: Vec4v, b: Mat4v, v: Vec4v)
    ensures
        dot4(row_times(u, b), v) == dot4(u, mat_vec(b, v)),
{
    lemma_distribute_right(u.x, u.y, u.z, u.w, b.row0.x, b.row1.x, b.row2.x, b.row3.x, v.x);
    lemma_distribute_right(u.x, u.y, u.z, u.w, b.row0.y, b.row1.y, b.row2.y, b.row3.y, v.y);
    lemma_distribute_right(u.x, u.y, u.z, u.w, b.row0.z, b.row1.z, b.row2.z, b.row3.z, v.z);
    lemma_distribute_right(u.x, u.y, u.z, u.w, b.row0.w, b.row1.w, b.row2.w, b.row3.w, v.w);
    lemma_distribute_left(u.x, b.row0.x * v.x, b.row0.y * v.y, b.row0.z * v.z, b.row0.w * v.w);
    lemma_distribute_left(u.y, b.row1.x * v.x, b.row1.y * v.y, b.row1.z * v.z, b.row1.w * v.w);
    lemma_distribute_left(u.z, b.row2.x * v.x, b.row2.y * v.y, b.row2.z * v.z, b.row2.w * v.w);
    lemma_distribute_left(u.w, b.row3.x * v.x, b.row3.y * v.y, b.row3.z * v.z, b.row3.w * v.w);
}

/// Law: the product is associative, exactly, over exact arithmetic.
pub proof fn lemma_mul_assoc(a: Mat4v, b: Mat4v, c: Mat4v)
    ensures
        mat_mul(mat_mul(a, b), c) == mat_mul(a, mat_mul(b, c)),
{
    lemma_row_exchange(a.row0, b, col0(c));
    lemma_row_exchange(a.row0, b, col1(c));
    lemma_row_exchange(a.row0, b, col2(c));
    lemma_row_exchange(a.row0, b, col3(c));
    lemma_row_exchange(a.row1, b, col0(c));
    lemma_row_exchange(a.row1, b, col1(c));
    lemma_row_exchange(a.row1, b, col2(c));
    lemma_row_exchange(a.row1, b, col3(c));
    lemma_row_exchange(a.row2, b, col0(c));
    lemma_row_exchange(a.row2, b, col1(c));
    lemma_row_exchange(a.row2, b, col2(c));
    lemma_row_exchange(a.row2, b, col3(c));
    lemma_row_exchange(a.row3, b, col0(c));
    lemma_row_exchange(a.row3, b, col1(c));
    lemma_row_exchange(a.row3, b, col2(c));
    lemma_row_exchange(a.row3, b, col3(c));
}

} // verus!
