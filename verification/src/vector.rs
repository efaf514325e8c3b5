//! Fixed-size vectors of 2, 3 and 4 exact integer coordinates.
//!
//! [`Vec4`] is the 4-wide operand of the accelerated kernels: its four
//! coordinates sit in the fixed order x, y, z, w, so a row of a matrix or a
//! vector passed to a kernel is read as one 4-wide lane group. The
//! accelerated dot product reduces the four lane products in the order a
//! vector unit's horizontal adds would, and the agreement law at the bottom
//! of this file proves that over exact arithmetic every reduction order
//! returns the very value of the scalar ground truth.
//!
//! Arithmetic here is exact: every operation states in its precondition that
//! the coordinates it is asked to combine fit in 64 bits, and promises the
//! mathematical result.

use crate::arch::Arch;
use crate::math::abs_val;
use vstd::prelude::*;

verus! {

/// A 2D vector.
#[derive(Clone, Copy, Debug, PartialEq, Eq, Structural)]
pub struct Vec2 {
    pub x: i64,
    pub y: i64,
}

/// A 3D vector.
#[derive(Clone, Copy, Debug, PartialEq, Eq, Structural)]
pub struct Vec3 {
    pub x: i64,
    pub y: i64,
    pub z: i64,
}

/// A 4D vector: the 4-wide operand of the accelerated kernels.
#[derive(Clone, Copy, Debug, PartialEq, Eq, Structural)]
pub struct Vec4 {
    pub x: i64,
    pub y: i64,
    pub z: i64,
    pub w: i64,
}

/// The mathematical value of a [`Vec4`]: four unbounded integers.
pub struct Vec4v {
    pub x: int,
    pub y: int,
    pub z: int,
    pub w: int,
}

impl View for Vec4 {
    type V = Vec4v;

    open spec fn view(&self) -> Vec4v {
        Vec4v { x: self.x as int, y: self.y as int, z: self.z as int, w: self.w as int }
    }
}

/// The scalar ground-truth dot product: lane products summed left to right
/// in the fixed field order x, y, z, w.
pub open spec fn dot4(a: Vec4v, b: Vec4v) -> int {
    ((a.x * b.x + a.y * b.y) + a.z * b.z) + a.w * b.w
}

/// The x86-family reduction order: two horizontal adds pair the lane
/// products as (x + y) + (z + w).
pub open spec fn dot4_hadd(a: Vec4v, b: Vec4v) -> int {
    (a.x * b.x + a.y * b.y) + (a.z * b.z + a.w * b.w)
}

/// The ARM-family reduction order: a rotate-by-two then a rotate-by-one add
/// pair the lane products as (x + z) + (y + w).
pub open spec fn dot4_pairwise(a: Vec4v, b: Vec4v) -> int {
    (a.x * b.x + a.z * b.z) + (a.y * b.y + a.w * b.w)
}

/// The four lane products of a dot product fit in 64 bits however a kernel
/// associates their sum: the sum of their absolute values fits.
pub open spec fn dot4_fits(a: Vec4v, b: Vec4v) -> bool {
    abs_val(a.x * b.x) + abs_val(a.y * b.y) + abs_val(a.z * b.z) + abs_val(a.w * b.w) <= i64::MAX
}

impl Vec2 {
    pub fn new(x: i64, y: i64) -> (r: Vec2)
        ensures
            r == (Vec2 { x, y }),
    {
        Vec2 { x, y }
    }

    pub fn add(&self, other: &Vec2) -> (r: Vec2)
        requires
            i64::MIN <= self.x + other.x <= i64::MAX,
            i64::MIN <= self.y + other.y <= i64::MAX,
        ensures
            r.x == self.x + other.x,
            r.y == self.y + other.y,
    {
        Vec2 { x: self.x + other.x, y: self.y + other.y }
    }

    pub fn sub(&self, other: &Vec2) -> (r: Vec2)
        requires
            i64::MIN <= self.x - other.x <= i64::MAX,
            i64::MIN <= self.y - other.y <= i64::MAX,
        ensures
            r.x == self.x - other.x,
            r.y == self.y - other.y,
    {
        Vec2 { x: self.x - other.x, y: self.y - other.y }
    }

    pub fn mul_scalar(&self, scalar: i64) -> (r: Vec2)
        requires
            i64::MIN <= self.x * scalar <= i64::MAX,
            i64::MIN <= self.y * scalar <= i64::MAX,
        ensures
            r.x == self.x * scalar,
            r.y == self.y * scalar,
    {
        Vec2 { x: self.x * scalar, y: self.y * scalar }
    }

    /// Dot product, the two lane products summed left to right.
    pub fn dot(&self, other: &Vec2) -> (r: i64)
        requires
            abs_val(self.x * other.x) + abs_val(self.y * other.y) <= i64::MAX,
        ensures
            r == self.x * other.x + self.y * other.y,
    {
        let px: i64 = self.x * other.x;
        let py: i64 = self.y * other.y;
        px + py
    }
}

impl Vec3 {
    pub fn new(x: i64, y: i64, z: i64) -> (r: Vec3)
        ensures
            r == (Vec3 { x, y, z }),
    {
        Vec3 { x, y, z }
    }

    pub fn add(&self, other: &Vec3) -> (r: Vec3)
        requires
            i64::MIN <= self.x + other.x <= i64::MAX,
            i64::MIN <= self.y + other.y <= i64::MAX,
            i64::MIN <= self.z + other.z <= i64::MAX,
        ensures
            r.x == self.x + other.x,
            r.y == self.y + other.y,
            r.z == self.z + other.z,
    {
        Vec3 { x: self.x + other.x, y: self.y + other.y, z: self.z + other.z }
    }

    pub fn sub(&self, other: &Vec3) -> (r: Vec3)
        requires
            i64::MIN <= self.x - other.x <= i64::MAX,
            i64::MIN <= self.y - other.y <= i64::MAX,
            i64::MIN <= self.z - other.z <= i64::MAX,
        ensures
            r.x == self.x - other.x,
            r.y == self.y - other.y,
            r.z == self.z - other.z,
    {
        Vec3 { x: self.x - other.x, y: self.y - other.y, z: self.z - other.z }
    }

    pub fn mul_scalar(&self, scalar: i64) -> (r: Vec3)
        requires
            i64::MIN <= self.x * scalar <= i64::MAX,
            i64::MIN <= self.y * scalar <= i64::MAX,
            i64::MIN <= self.z * scalar <= i64::MAX,
        ensures
            r.x == self.x * scalar,
            r.y == self.y * scalar,
            r.z == self.z * scalar,
    {
        Vec3 { x: self.x * scalar, y: self.y * scalar, z: self.z * scalar }
    }

    /// Dot product, the three lane products summed left to right.
    pub fn dot(&self, other: &Vec3) -> (r: i64)
        requires
            abs_val(self.x * other.x) + abs_val(self.y * other.y) + abs_val(self.z * other.z)
                <= i64::MAX,
        ensures
            r == (self.x * other.x + self.y * other.y) + self.z * other.z,
    {
        let px: i64 = self.x * other.x;
        let py: i64 = self.y * other.y;
        let pz: i64 = self.z * other.z;
        (px + py) + pz
    }

    /// Cross product.
    pub fn cross(&self, other: &Vec3) -> (r: Vec3)
        requires
            abs_val(self.y * other.z) + abs_val(self.z * other.y) <= i64::MAX,
            abs_val(self.z * other.x) + abs_val(self.x * other.z) <= i64::MAX,
            abs_val(self.x * other.y) + abs_val(self.y * other.x) <= i64::MAX,
        ensures
            r.x == self.y * other.z - self.z * other.y,
            r.y == self.z * other.x - self.x * other.z,
            r.z == self.x * other.y - self.y * other.x,
    {
        Vec3 {
            x: self.y * other.z - self.z * other.y,
            y: self.z * other.x - self.x * other.z,
            z: self.x * other.y - self.y * other.x,
        }
    }
}

impl Vec4 {
    pub fn new(x: i64, y: i64, z: i64, w: i64) -> (r: Vec4)
        ensures
            r == (Vec4 { x, y, z, w }),
    {
        Vec4 { x, y, z, w }
    }

    pub fn add(&self, other: &Vec4) -> (r: Vec4)
        requires
            i64::MIN <= self.x + other.x <= i64::MAX,
            i64::MIN <= self.y + other.y <= i64::MAX,
            i64::MIN <= self.z + other.z <= i64::MAX,
            i64::MIN <= self.w + other.w <= i64::MAX,
        ensures
            r.x == self.x + other.x,
            r.y == self.y + other.y,
            r.z == self.z + other.z,
            r.w == self.w + other.w,
    {
        Vec4 {
            x: self.x + other.x,
            y: self.y + other.y,
            z: self.z + other.z,
            w: self.w + other.w,
        }
    }

    pub fn sub(&self, other: &Vec4) -> (r: Vec4)
        requires
            i64::MIN <= self.x - other.x <= i64::MAX,
            i64::MIN <= self.y - other.y <= i64::MAX,
            i64::MIN <= self.z - other.z <= i64::MAX,
            i64::MIN <= self.w - other.w <= i64::MAX,
        ensures
            r.x == self.x - other.x,
            r.y == self.y - other.y,
            r.z == self.z - other.z,
            r.w == self.w - other.w,
    {
        Vec4 {
            x: self.x - other.x,
            y: self.y - other.y,
            z: self.z - other.z,
            w: self.w - other.w,
        }
    }

    pub fn mul_scalar(&self, scalar: i64) -> (r: Vec4)
        requires
            i64::MIN <= self.x * scalar <= i64::MAX,
            i64::MIN <= self.y * scalar <= i64::MAX,
            i64::MIN <= self.z * scalar <= i64::MAX,
            i64::MIN <= self.w * scalar <= i64::MAX,
        ensures
            r.x == self.x * scalar,
            r.y == self.y * scalar,
            r.z == self.z * scalar,
            r.w == self.w * scalar,
    {
        Vec4 {
            x: self.x * scalar,
            y: self.y * scalar,
            z: self.z * scalar,
            w: self.w * scalar,
        }
    }

    /// The scalar ground-truth dot product.
    pub fn dot(&self, other: &Vec4) -> (r: i64)
        requires
            dot4_fits(self@, other@),
        ensures
            r == dot4(self@, other@),
    {
        let px: i64 = self.x * other.x;
        let py: i64 = self.y * other.y;
        let pz: i64 = self.z * other.z;
        let pw: i64 = self.w * other.w;
        ((px + py) + pz) + pw
    }

    /// The accelerated dot product: the four lane products are formed at
    /// once and reduced horizontally, in the order of the target family's
    /// vector unit. There is no scalar fallback behind this entry point; a
    /// target without a vector unit cannot call it and keeps [`Vec4::dot`].
    pub fn dot_simd(&self, other: &Vec4, arch: Arch) -> (r: i64)
        requires
            arch.accelerated(),
            dot4_fits(self@, other@),
        ensures
            r == dot4(self@, other@),
            arch == Arch::X86Family ==> r == dot4_hadd(self@, other@),
            arch == Arch::ArmFamily ==> r == dot4_pairwise(self@, other@),
    {
        let px: i64 = self.x * other.x;
        let py: i64 = self.y * other.y;
        let pz: i64 = self.z * other.z;
        let pw: i64 = self.w * other.w;
        match arch {
            Arch::X86Family => (px + py) + (pz + pw),
            Arch::ArmFamily => (px + pz) + (py + pw),
            Arch::Other => unreached(),
        }
    }
}

/// Law: the two accelerated reduction orders return the very value of the
/// scalar ground truth. Over exact integer lanes the agreement is exact;
/// the tolerance the floating-point kernels quote exists only because
/// rounding differs between reduction orders, and exact arithmetic has none.
pub proof fn lemma_dot_kernels_agree(a: Vec4v, b: Vec4v)
    ensures
        dot4_hadd(a, b) == dot4(a, b),
        dot4_pairwise(a, b) == dot4(a, b),
{
}

} // verus!
