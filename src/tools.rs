//! Two-dimensional fixed-point vectors.
use vstd::prelude::*;
use crate::fixed::{fits_i64, fixed_mul, fx_mul};

verus! {

/// A point or a vector in the plane, each coordinate a fixed-point value.
#[derive(Clone, Copy, Debug, PartialEq, Eq, Structural)]
pub struct Vec2 {
    pub x: i64,
    pub y: i64,
}

impl View for Vec2 {
    type V = (int, int);

    open spec fn view(&self) -> (int, int) {
        (self.x as int, self.y as int)
    }
}

impl Vec2 {
    pub fn new(x: i64, y: i64) -> (r: Vec2)
        ensures
            r@ == (x as int, y as int),
    {
        Vec2 { x, y }
    }

    pub fn zeros() -> (r: Vec2)
        ensures
            r@ == (0int, 0int),
    {
        Vec2 { x: 0, y: 0 }
    }
}

/// The scalar cross product `a.x * b.y - b.x * a.y` of two fixed-point vectors.
pub open spec fn determinant(a: (int, int), b: (int, int)) -> int {
    fx_mul(a.0, b.1) - fx_mul(b.0, a.1)
}

/// The scalar cross product of `v1` and `v2`: the signed area of the
/// parallelogram they span, positive when `v2` lies counter-clockwise of `v1`.
pub fn vec_determinant(v1: &Vec2, v2: &Vec2) -> (r: i64)
    requires
        fits_i64(fx_mul(v1.x as int, v2.y as int)),
        fits_i64(fx_mul(v2.x as int, v1.y as int)),
        fits_i64(determinant(v1@, v2@)),
    ensures
        r as int == determinant(v1@, v2@),
{
    fixed_mul(v1.x, v2.y) - fixed_mul(v2.x, v1.y)
}

} // verus!
