//! Integer vectors in three dimensions.
//!
//! The axes of the game and everything built from them have whole-number
//! components, so directions are kept exact: a [`Vector3`] is never scaled to
//! unit length here. Its mathematical model is an [`IntVector`], over which
//! the contracts of this crate are stated.

use vstd::prelude::*;

verus! {

/// A vector of three mathematical integers: the model of a [`Vector3`].
pub struct IntVector {
    pub x: int,
    pub y: int,
    pub z: int,
}

impl IntVector {
    /// The vector with all components zero.
    pub open spec fn zero() -> IntVector {
        IntVector { x: 0, y: 0, z: 0 }
    }

    /// Component-wise sum.
    pub open spec fn plus(self, rhs: IntVector) -> IntVector {
        IntVector { x: self.x + rhs.x, y: self.y + rhs.y, z: self.z + rhs.z }
    }

    /// The vector of the same length that points the other way.
    pub open spec fn negated(self) -> IntVector {
        IntVector { x: -self.x, y: -self.y, z: -self.z }
    }

    /// Every component multiplied by `k`.
    pub open spec fn scaled(self, k: int) -> IntVector {
        IntVector { x: k * self.x, y: k * self.y, z: k * self.z }
    }

    /// Scalar product.
    pub open spec fn dot(self, rhs: IntVector) -> int {
        self.x * rhs.x + self.y * rhs.y + self.z * rhs.z
    }

    /// Right-handed vector product.
    pub open spec fn cross(self, rhs: IntVector) -> IntVector {
        IntVector {
            x: self.y * rhs.z - self.z * rhs.y,
            y: self.z * rhs.x - self.x * rhs.z,
            z: self.x * rhs.y - self.y * rhs.x,
        }
    }

    /// The square of the Euclidean length.
    pub open spec fn norm_squared(self) -> int {
        self.dot(self)
    }

    /// Whether every component fits in an `i32`, so that a [`Vector3`] can hold
    /// this vector.
    pub open spec fn representable(self) -> bool {
        &&& i32::MIN <= self.x <= i32::MAX
        &&& i32::MIN <= self.y <= i32::MAX
        &&& i32::MIN <= self.z <= i32::MAX
    }
}

/// The direction that points up in the world: the y axis.
pub open spec fn up_axis() -> IntVector {
    IntVector { x: 0, y: 1, z: 0 }
}

/// A vector with `i32` components.
#[derive(Clone, Copy, PartialEq, Eq, Structural, Debug)]
pub struct Vector3 {
    pub x: i32,
    pub y: i32,
    pub z: i32,
}

impl View for Vector3 {
    type V = IntVector;

    open spec fn view(&self) -> IntVector {
        IntVector { x: self.x as int, y: self.y as int, z: self.z as int }
    }
}

impl Vector3 {
    /// The vector with the given components.
    pub fn new(x: i32, y: i32, z: i32) -> (r: Vector3)
        ensures
            r == (Vector3 { x, y, z }),
    {
        Vector3 { x, y, z }
    }

    /// The vector with all components zero.
    pub fn zero() -> (r: Vector3)
        ensures
            r == (Vector3 { x: 0, y: 0, z: 0 }),
            r@ == IntVector::zero(),
    {
        Vector3 { x: 0, y: 0, z: 0 }
    }

    /// The direction that points up in the world.
    pub fn up() -> (r: Vector3)
        ensures
            r == (Vector3 { x: 0, y: 1, z: 0 }),
            r@ == up_axis(),
    {
        Vector3 { x: 0, y: 1, z: 0 }
    }

    /// Component-wise sum. The sum has to fit in `i32` components.
    pub fn plus(self, rhs: Vector3) -> (r: Vector3)
        requires
            self@.plus(rhs@).representable(),
        ensures
            r@ == self@.plus(rhs@),
    {
        Vector3 { x: self.x + rhs.x, y: self.y + rhs.y, z: self.z + rhs.z }
    }

    /// The opposite vector. No component may be `i32::MIN`, whose opposite
    /// does not fit.
    pub fn negated(self) -> (r: Vector3)
        requires
            self@.negated().representable(),
        ensures
            r@ == self@.negated(),
    {
        Vector3 { x: -self.x, y: -self.y, z: -self.z }
    }

    /// Right-handed vector product. The product has to fit in `i32`
    /// components; the intermediate products are taken in 64 bits.
    pub fn cross(self, rhs: Vector3) -> (r: Vector3)
        requires
            self@.cross(rhs@).representable(),
        ensures
            r@ == self@.cross(rhs@),
    {
        let x: i64 = minor(self.y, rhs.z, self.z, rhs.y);
        let y: i64 = minor(self.z, rhs.x, self.x, rhs.z);
        let z: i64 = minor(self.x, rhs.y, self.y, rhs.x);
        Vector3 { x: x as i32, y: y as i32, z: z as i32 }
    }
}

/// The determinant `a * d - b * c` of two `i32` pairs, which always fits in 64
/// bits.
fn minor(a: i32, d: i32, b: i32, c: i32) -> (r: i64)
    ensures
        r == a * d - b * c,
{
    assert(-0x4000_0000_0000_0000 < a * d <= 0x4000_0000_0000_0000) by (nonlinear_arith)
        requires
            -0x8000_0000 <= a < 0x8000_0000,
            -0x8000_0000 <= d < 0x8000_0000,
    ;
    assert(-0x4000_0000_0000_0000 < b * c <= 0x4000_0000_0000_0000) by (nonlinear_arith)
        requires
            -0x8000_0000 <= b < 0x8000_0000,
            -0x8000_0000 <= c < 0x8000_0000,
    ;
    let ad: i64 = (a as i64) * (d as i64);
    let bc: i64 = (b as i64) * (c as i64);
    ad - bc
}

} // verus!
