//! The view frustum and the bounding-volume test, in fixed-point integers.
//!
//! World coordinates are signed 32-bit fixed-point numbers. The test is exact:
//! a sphere is kept when it lies inside or touches every half-space of the
//! frustum, with no rounding.

use vstd::prelude::*;

verus! {

/// The half-space of all points with `a*x + b*y + c*z + d >= 0`.
///
/// The normal `(a, b, c)` points into the half-space and need not have unit
/// length.
#[derive(Clone, Copy, Debug, PartialEq, Eq, Structural)]
pub struct Plane {
    pub a: i32,
    pub b: i32,
    pub c: i32,
    pub d: i32,
}

/// A sphere that encloses an object, in world coordinates.
#[derive(Clone, Copy, Debug, PartialEq, Eq, Structural)]
pub struct BoundingSphere {
    pub x: i32,
    pub y: i32,
    pub z: i32,
    pub radius: u32,
}

/// The product of two 32-bit integers, which always fits in 64 bits.
fn product(a: i32, b: i32) -> (p: i64)
    ensures
        p == a * b,
        -0x4000_0000_0000_0000 <= p <= 0x4000_0000_0000_0000,
{
    assert(-0x4000_0000_0000_0000 <= a * b <= 0x4000_0000_0000_0000) by (nonlinear_arith)
        requires
            -0x8000_0000 <= a <= 0x7fff_ffff,
            -0x8000_0000 <= b <= 0x7fff_ffff,
    ;
    (a as i64) * (b as i64)
}

/// The square of an unsigned 32-bit integer, which always fits in 64 bits.
fn square(r: u32) -> (s: u64)
    ensures
        s == r * r,
{
    assert(0 <= r * r <= 0xffff_ffff * 0xffff_ffff) by (nonlinear_arith)
        requires
            0 <= r <= 0xffff_ffff,
    ;
    (r as u64) * (r as u64)
}

/// The product of two unsigned 64-bit integers, which always fits in 128 bits.
fn wide_product(a: u64, b: u64) -> (p: u128)
    ensures
        p == a * b,
{
    assert(0 <= a * b <= 0xffff_ffff_ffff_ffff * 0xffff_ffff_ffff_ffff) by (nonlinear_arith)
        requires
            0 <= a <= 0xffff_ffff_ffff_ffff,
            0 <= b <= 0xffff_ffff_ffff_ffff,
    ;
    (a as u128) * (b as u128)
}

impl Plane {
    /// The plane equation evaluated at the sphere's centre: the signed
    /// distance of the centre from the plane, scaled by the length of the
    /// normal.
    pub open spec fn offset(self, sphere: BoundingSphere) -> int {
        self.a * sphere.x + self.b * sphere.y + self.c * sphere.z + self.d
    }

    /// The squared length of the normal.
    pub open spec fn normal_sq(self) -> int {
        self.a * self.a + self.b * self.b + self.c * self.c
    }

    /// Whether some point of the sphere lies in the half-space: the centre
    /// does, or it is no further from the plane than the radius.
    pub open spec fn admits(self, sphere: BoundingSphere) -> bool {
        let t = self.offset(sphere);
        t >= 0 || t * t <= sphere.radius * sphere.radius * self.normal_sq()
    }

    /// Tests whether some point of `sphere` lies in the half-space.
    pub fn admits_sphere(&self, sphere: &BoundingSphere) -> (kept: bool)
        ensures
            kept == self.admits(*sphere),
    {
        let t: i128 = product(self.a, sphere.x) as i128 + product(self.b, sphere.y) as i128
            + product(self.c, sphere.z) as i128 + self.d as i128;
        if t >= 0 {
            return true;
        }
        let depth: u64 = (-t) as u64;
        let aa: i64 = product(self.a, self.a);
        let bb: i64 = product(self.b, self.b);
        let cc: i64 = product(self.c, self.c);
        proof {
            let ti = self.offset(*sphere);
            assert(depth * depth == ti * ti) by (nonlinear_arith)
                requires
                    depth == -ti,
            ;
            assert(self.a * self.a >= 0 && self.b * self.b >= 0 && self.c * self.c >= 0)
                by (nonlinear_arith);
        }
        let normal_sq: u64 = aa as u64 + bb as u64 + cc as u64;
        let radius_sq: u64 = square(sphere.radius);
        wide_product(depth, depth) <= wide_product(radius_sq, normal_sq)
    }
}

/// The six half-spaces whose intersection is the camera's view volume.
#[derive(Clone, Copy, Debug, PartialEq, Eq, Structural)]
pub struct Frustum {
    pub left: Plane,
    pub right: Plane,
    pub top: Plane,
    pub bottom: Plane,
    pub near: Plane,
    pub far: Plane,
}

impl Frustum {
    /// Whether the sphere is at least partly inside the view volume, as far
    /// as the six planes can tell: no plane has the whole sphere outside.
    pub open spec fn contains(self, sphere: BoundingSphere) -> bool {
        &&& self.left.admits(sphere)
        &&& self.right.admits(sphere)
        &&& self.top.admits(sphere)
        &&& self.bottom.admits(sphere)
        &&& self.near.admits(sphere)
        &&& self.far.admits(sphere)
    }

    /// Tests the sphere against all six planes.
    pub fn contains_sphere(&self, sphere: &BoundingSphere) -> (kept: bool)
        ensures
            kept == self.contains(*sphere),
    {
        self.left.admits_sphere(sphere) && self.right.admits_sphere(sphere)
            && self.top.admits_sphere(sphere) && self.bottom.admits_sphere(sphere)
            && self.near.admits_sphere(sphere) && self.far.admits_sphere(sphere)
    }
}

} // verus!
