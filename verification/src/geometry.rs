//! Points, vectors and boxes whose coordinates are binary32 encodings.

use crate::scalar::Scalar;
use vstd::prelude::*;

verus! {

/// A direction or displacement in three dimensions.
#[derive(Clone, Copy, Debug, PartialEq, Eq, Structural)]
pub struct Vector3 {
    pub x: Scalar,
    pub y: Scalar,
    pub z: Scalar,
}

/// A position in three dimensions.
#[derive(Clone, Copy, Debug, PartialEq, Eq, Structural)]
pub struct Point3 {
    pub x: Scalar,
    pub y: Scalar,
    pub z: Scalar,
}

/// A position in two dimensions, such as a surface parameter or a sample.
#[derive(Clone, Copy, Debug, PartialEq, Eq, Structural)]
pub struct Point2 {
    pub x: Scalar,
    pub y: Scalar,
}

/// An axis-aligned box, given by its least and greatest corner.
#[derive(Clone, Copy, Debug, PartialEq, Eq, Structural)]
pub struct Bounds3 {
    pub p_min: Point3,
    pub p_max: Point3,
}

/// A sphere, given by its centre and radius.
#[derive(Clone, Copy, Debug, PartialEq, Eq, Structural)]
pub struct Sphere {
    pub center: Point3,
    pub radius: Scalar,
}

impl Vector3 {
    pub fn new(x: Scalar, y: Scalar, z: Scalar) -> (v: Vector3)
        ensures
            v == (Vector3 { x, y, z }),
    {
        Vector3 { x, y, z }
    }

    /// The vector with all coordinates +0.
    pub fn zero() -> (v: Vector3)
        ensures
            v.x.bits == 0 && v.y.bits == 0 && v.z.bits == 0,
    {
        Vector3 { x: Scalar::zero(), y: Scalar::zero(), z: Scalar::zero() }
    }
}

impl Point3 {
    /// Whether two points are the same place: each coordinate of the one
    /// equals that of the other as a number, so that the two zeros agree
    /// and a NaN agrees with nothing.
    pub open spec fn coincides(self, other: Point3) -> bool {
        self.x.equals(other.x) && self.y.equals(other.y) && self.z.equals(other.z)
    }

    pub fn new(x: Scalar, y: Scalar, z: Scalar) -> (p: Point3)
        ensures
            p == (Point3 { x, y, z }),
    {
        Point3 { x, y, z }
    }

    /// Whether two points are the same place.
    pub fn is_at(&self, other: &Point3) -> (r: bool)
        ensures
            r == self.coincides(*other),
    {
        self.x.eq_value(&other.x) && self.y.eq_value(&other.y) && self.z.eq_value(&other.z)
    }

    /// The point with all coordinates +0.
    pub fn origin() -> (p: Point3)
        ensures
            p.x.bits == 0 && p.y.bits == 0 && p.z.bits == 0,
    {
        Point3 { x: Scalar::zero(), y: Scalar::zero(), z: Scalar::zero() }
    }
}

impl Point2 {
    pub fn new(x: Scalar, y: Scalar) -> (p: Point2)
        ensures
            p == (Point2 { x, y }),
    {
        Point2 { x, y }
    }
}

} // verus!
