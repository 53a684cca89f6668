//! Three-component fixed-point vectors (milli-units).
//!
//! The `z` component only orders sprites for the host; the simulation
//! carries it along unchanged except where noted.

use vstd::prelude::*;

use crate::fixed::{
    abs_i, clamp_world, in_world, is_sqrt_ceil, lemma_mul_div_bounds, lemma_rescale_norm, mul_div,
    spec_clamp, spec_mul_div, spec_sqrt_ceil, sqrt_ceil, WORLD_LIM,
};

verus! {

/// A position, velocity or direction, in milli-units per component.
#[derive(Clone, Copy, Debug, PartialEq, Eq, Structural)]
pub struct Vec3 {
    pub x: i64,
    pub y: i64,
    pub z: i64,
}

impl Vec3 {
    /// Every component is storable.
    pub open spec fn wf(self) -> bool {
        in_world(self.x as int) && in_world(self.y as int) && in_world(self.z as int)
    }

    /// Squared Euclidean norm.
    pub open spec fn spec_norm_sq(self) -> int {
        self.x * self.x + self.y * self.y + self.z * self.z
    }

    /// Component-wise magnitude bound.
    pub open spec fn bounded_by(self, b: int) -> bool {
        abs_i(self.x as int) <= b && abs_i(self.y as int) <= b && abs_i(self.z as int) <= b
    }

    pub fn new(x: i64, y: i64, z: i64) -> (r: Vec3)
        ensures
            r == (Vec3 { x, y, z }),
    {
        Vec3 { x, y, z }
    }

    pub fn zero() -> (r: Vec3)
        ensures
            r == (Vec3 { x: 0 as i64, y: 0 as i64, z: 0 as i64 }),
            r.wf(),
    {
        Vec3 { x: 0, y: 0, z: 0 }
    }

    /// Squared norm. The component bound keeps the sum inside `i64`.
    pub fn norm_sq(&self) -> (r: i64)
        requires
            self.bounded_by(2 * WORLD_LIM),
        ensures
            r == self.spec_norm_sq(),
            0 <= r,
    {
        proof {
            lemma_sq_bound(self.x as int, 1_600_000_000);
            lemma_sq_bound(self.y as int, 1_600_000_000);
            lemma_sq_bound(self.z as int, 1_600_000_000);
        }
        self.x * self.x + self.y * self.y + self.z * self.z
    }

    /// Squared distance between two storable points.
    pub fn dist_sq(&self, other: &Vec3) -> (r: i64)
        requires
            self.wf(),
            other.wf(),
        ensures
            r == self.spec_sub(*other).spec_norm_sq(),
            0 <= r,
    {
        let d = self.sub(other);
        d.norm_sq()
    }

    pub open spec fn spec_sub(self, other: Vec3) -> Vec3 {
        Vec3 { x: (self.x - other.x) as i64, y: (self.y - other.y) as i64, z: (self.z - other.z) as i64 }
    }

    /// Difference of two storable vectors; components stay within twice
    /// the world bound.
    pub fn sub(&self, other: &Vec3) -> (r: Vec3)
        requires
            self.wf(),
            other.wf(),
        ensures
            r == self.spec_sub(*other),
            r.bounded_by(2 * WORLD_LIM),
    {
        Vec3 { x: self.x - other.x, y: self.y - other.y, z: self.z - other.z }
    }

    pub open spec fn spec_add_clamped(self, other: Vec3) -> Vec3 {
        Vec3 {
            x: spec_clamp(self.x + other.x) as i64,
            y: spec_clamp(self.y + other.y) as i64,
            z: spec_clamp(self.z + other.z) as i64,
        }
    }

    /// Sum, saturated into the storable range.
    pub fn add_clamped(&self, other: &Vec3) -> (r: Vec3)
        requires
            self.bounded_by(4 * WORLD_LIM),
            other.bounded_by(4 * WORLD_LIM),
        ensures
            r == self.spec_add_clamped(*other),
            r.wf(),
    {
        Vec3 {
            x: clamp_world(self.x + other.x),
            y: clamp_world(self.y + other.y),
            z: clamp_world(self.z + other.z),
        }
    }

    pub open spec fn spec_sub_clamped(self, other: Vec3) -> Vec3 {
        Vec3 {
            x: spec_clamp(self.x - other.x) as i64,
            y: spec_clamp(self.y - other.y) as i64,
            z: spec_clamp(self.z - other.z) as i64,
        }
    }

    /// Difference, saturated into the storable range.
    pub fn sub_clamped(&self, other: &Vec3) -> (r: Vec3)
        requires
            self.bounded_by(4 * WORLD_LIM),
            other.bounded_by(4 * WORLD_LIM),
        ensures
            r == self.spec_sub_clamped(*other),
            r.wf(),
    {
        Vec3 {
            x: clamp_world(self.x - other.x),
            y: clamp_world(self.y - other.y),
            z: clamp_world(self.z - other.z),
        }
    }

    pub open spec fn spec_scaled(self, num: int, den: int) -> Vec3 {
        Vec3 {
            x: spec_mul_div(self.x as int, num, den) as i64,
            y: spec_mul_div(self.y as int, num, den) as i64,
            z: spec_mul_div(self.z as int, num, den) as i64,
        }
    }

    /// Component-wise `* num / den`, truncated toward zero.
    pub fn scaled(&self, num: i64, den: i64) -> (r: Vec3)
        requires
            self.bounded_by(4 * WORLD_LIM),
            0 <= num <= 2_000_000_000,
            0 < den,
        ensures
            r == self.spec_scaled(num as int, den as int),
            den >= num ==> r.bounded_by(4 * WORLD_LIM),
    {
        proof {
            let b = 4 * WORLD_LIM as int;
            lemma_mul_le(abs_i(self.x as int), num as int, b, 2_000_000_000);
            lemma_mul_le(abs_i(self.y as int), num as int, b, 2_000_000_000);
            lemma_mul_le(abs_i(self.z as int), num as int, b, 2_000_000_000);
            if num <= den {
                lemma_mul_le(abs_i(self.x as int), num as int, b, den as int);
                lemma_scaled_le(self.x as int, num as int, den as int, b);
                lemma_mul_le(abs_i(self.y as int), num as int, b, den as int);
                lemma_scaled_le(self.y as int, num as int, den as int, b);
                lemma_mul_le(abs_i(self.z as int), num as int, b, den as int);
                lemma_scaled_le(self.z as int, num as int, den as int, b);
            }
        }
        Vec3 {
            x: mul_div(self.x, num, den),
            y: mul_div(self.y, num, den),
            z: mul_div(self.z, num, den),
        }
    }

    /// The vector rescaled along its own direction so that its norm is at
    /// most `c` (exactly `c` up to integer truncation).
    pub open spec fn spec_rescaled(self, c: int) -> Vec3 {
        let s = spec_sqrt_ceil(self.spec_norm_sq());
        self.spec_scaled(c, s)
    }

    /// Rescale a nonzero vector to length at most `c`: each component is
    /// multiplied by `c` and divided by the ceiling norm.
    pub fn rescale_to(&self, c: i64) -> (r: Vec3)
        requires
            self.bounded_by(2 * WORLD_LIM),
            self.spec_norm_sq() >= 1,
            0 <= c <= 2_000_000_000,
        ensures
            r == self.spec_rescaled(c as int),
            r.spec_norm_sq() <= c * c,
            r.bounded_by(c as int),
    {
        let n = self.norm_sq();
        let s = sqrt_ceil(n);
        proof {
            let ss = s as int;
            let cc = c as int;
            lemma_rescale_norm(self.x as int, self.y as int, self.z as int, ss, cc);
            lemma_component_le_norm(self.x as int, self.y as int, self.z as int, ss);
            lemma_component_le_norm(self.y as int, self.x as int, self.z as int, ss);
            lemma_component_le_norm(self.z as int, self.x as int, self.y as int, ss);
            lemma_mul_le(abs_i(self.x as int), cc, ss, cc);
            lemma_scaled_le(self.x as int, cc, ss, cc);
            lemma_mul_le(abs_i(self.y as int), cc, ss, cc);
            lemma_scaled_le(self.y as int, cc, ss, cc);
            lemma_mul_le(abs_i(self.z as int), cc, ss, cc);
            lemma_scaled_le(self.z as int, cc, ss, cc);
            lemma_mul_le(abs_i(self.x as int), cc, 2 * WORLD_LIM as int, 2_000_000_000);
            lemma_mul_le(abs_i(self.y as int), cc, 2 * WORLD_LIM as int, 2_000_000_000);
            lemma_mul_le(abs_i(self.z as int), cc, 2 * WORLD_LIM as int, 2_000_000_000);
        }
        Vec3 {
            x: mul_div(self.x, c, s),
            y: mul_div(self.y, c, s),
            z: mul_div(self.z, c, s),
        }
    }
}

/// `|x| <= b` bounds the square by `b * b`.
proof fn lemma_sq_bound(x: int, b: int)
    requires
        0 <= b,
        abs_i(x) <= b,
    ensures
        0 <= x * x,
        x * x <= b * b,
{
    assert(0 <= x * x && x * x <= b * b) by (nonlinear_arith)
        requires
            abs_i(x) <= b,
            abs_i(x) == x || abs_i(x) == -x,
            abs_i(x) >= 0,
    ;
}

/// Scaling by `num / den` with `|x| <= den * k / num`-style slack: if
/// `|x| <= b` and `num <= den`, the scaled value stays within `b`; more
/// generally `|spec_mul_div(x, num, den)| <= b` whenever `|x| * num <= b * den`.
pub proof fn lemma_scaled_le(x: int, num: int, den: int, b: int)
    requires
        0 <= num,
        0 < den,
        0 <= b,
        abs_i(x) * num <= b * den,
    ensures
        abs_i(spec_mul_div(x, num, den)) <= b,
{
    lemma_mul_div_bounds(x, num, den);
    let q = abs_i(spec_mul_div(x, num, den));
    assert(q <= b) by (nonlinear_arith)
        requires
            q * den <= abs_i(x) * num,
            abs_i(x) * num <= b * den,
            den > 0,
            q >= 0,
            b >= 0,
    ;
}

/// Monotonicity of products of nonnegative values.
pub proof fn lemma_mul_le(a: int, b: int, c: int, d: int)
    requires
        0 <= a <= c,
        0 <= b <= d,
    ensures
        a * b <= c * d,
{
    assert(a * b <= c * d) by (nonlinear_arith)
        requires
            0 <= a <= c,
            0 <= b <= d,
    ;
}

/// A component's magnitude never exceeds the ceiling norm of the vector.
pub proof fn lemma_component_le_norm(x: int, y: int, z: int, s: int)
    requires
        is_sqrt_ceil(x * x + y * y + z * z, s),
    ensures
        abs_i(x) <= s,
{
    assert(y * y >= 0) by (nonlinear_arith);
    assert(z * z >= 0) by (nonlinear_arith);
    assert(abs_i(x) <= s) by (nonlinear_arith)
        requires
            y * y >= 0,
            z * z >= 0,
            x * x + y * y + z * z <= s * s,
            s >= 0,
            abs_i(x) == x || abs_i(x) == -x,
            abs_i(x) >= 0,
    ;
}

} // verus!
