//! N-body-lite gravity: every massless mover is attracted by every
//! massive body, with the inverse-square force capped so that a near-zero
//! distance cannot blow the simulation up.
//!
//! Runs before kinematics each tick, so the new velocity is what the
//! position integration and the bullet-orientation logic see.

use vstd::prelude::*;

use crate::fixed::{abs_i, mul_div, spec_mul_div, spec_sqrt_ceil, sqrt_ceil, WORLD_LIM};
use crate::kinematics::valid_dt;
use crate::vec3::Vec3;

verus! {

/// Cap on the gravity force magnitude, in milli-units per second squared.
pub const MAX_FORCE: i64 = 1_000_000;

/// Default gravity susceptibility (scale: 1000 = 1.0).
pub const DEFAULT_GRAVITY_MULTIPLIER: i64 = 1000;

/// Largest gravity susceptibility a mover may carry (100.0).
pub const GRAVITY_MULT_LIM: i64 = 100_000;

/// Largest mass a body may carry, in milli mass units.
pub const MASS_LIM: i64 = 1_000_000_000;

/// A body position/mass pair the field is built from.
pub open spec fn valid_body(mass: int) -> bool {
    0 <= mass <= MASS_LIM
}

/// Magnitude of the attraction of a body of mass `mass` (milli) on a
/// mover with susceptibility `mult` (milli) at squared distance
/// `dist_sq` (milli^2): `min(mult * mass / dist, MAX_FORCE)`, all in
/// fixed point.
pub open spec fn spec_force(mult: int, mass: int, dist_sq: int) -> int {
    let raw = 1000 * mult * mass / dist_sq;
    if raw > MAX_FORCE {
        MAX_FORCE as int
    } else {
        raw
    }
}

/// The capped inverse-square force. The gravity force bound: the result
/// never exceeds `MAX_FORCE`, whatever the mass and the distance.
pub fn force_magnitude(mult: i64, mass: i64, dist_sq: i64) -> (r: i64)
    requires
        0 <= mult <= GRAVITY_MULT_LIM,
        valid_body(mass as int),
        1 <= dist_sq,
    ensures
        r == spec_force(mult as int, mass as int, dist_sq as int),
        0 <= r <= MAX_FORCE,
{
    proof {
        assert(0 <= 1000 * (mult as int) * (mass as int) <= 100_000_000_000_000_000)
            by (nonlinear_arith)
            requires
                0 <= mult <= 100_000,
                0 <= mass <= 1_000_000_000,
        ;
        assert(0 <= 1000 * (mult as int) * (mass as int) / (dist_sq as int) <= 1000 * (
        mult as int) * (mass as int)) by (nonlinear_arith)
            requires
                0 <= 1000 * (mult as int) * (mass as int),
                1 <= dist_sq,
        ;
    }
    let raw = 1000 * mult * mass / dist_sq;
    if raw > MAX_FORCE {
        MAX_FORCE
    } else {
        raw
    }
}

/// Velocity of a mover after the kick from one body over `dt_ms`.
/// A body at zero distance exerts no kick (the zero vector cannot be
/// normalized, so the singular case is a no-op).
pub open spec fn spec_gravity_kick(
    obj_pos: Vec3,
    vel: Vec3,
    mult: int,
    body_pos: Vec3,
    mass: int,
    dt_ms: int,
) -> Vec3 {
    let dir = body_pos.spec_sub(obj_pos);
    let d2 = dir.spec_norm_sq();
    if d2 == 0 {
        vel
    } else {
        let f = spec_force(mult, mass, d2);
        let s = spec_sqrt_ceil(d2);
        let dv = dir.spec_scaled(f, s).spec_scaled(dt_ms, 1000);
        vel.spec_add_clamped(dv)
    }
}

/// Apply one body's attraction to one mover's velocity.
pub fn gravity_kick(
    obj_pos: &Vec3,
    vel: &Vec3,
    mult: i64,
    body_pos: &Vec3,
    mass: i64,
    dt_ms: i64,
) -> (r: Vec3)
    requires
        obj_pos.wf(),
        vel.wf(),
        body_pos.wf(),
        0 <= mult <= GRAVITY_MULT_LIM,
        valid_body(mass as int),
        valid_dt(dt_ms as int),
    ensures
        r == spec_gravity_kick(*obj_pos, *vel, mult as int, *body_pos, mass as int, dt_ms as int),
        r.wf(),
{
    let dir = body_pos.sub(obj_pos);
    let d2 = dir.norm_sq();
    if d2 == 0 {
        *vel
    } else {
        let f = force_magnitude(mult, mass, d2);
        let s = sqrt_ceil(d2);
        proof {
            crate::vec3::lemma_component_le_norm(dir.x as int, dir.y as int, dir.z as int, s as int);
            crate::vec3::lemma_component_le_norm(dir.y as int, dir.x as int, dir.z as int, s as int);
            crate::vec3::lemma_component_le_norm(dir.z as int, dir.x as int, dir.y as int, s as int);
            lemma_kick_scaled_fits(dir.x as int, f as int, s as int);
            lemma_kick_scaled_fits(dir.y as int, f as int, s as int);
            lemma_kick_scaled_fits(dir.z as int, f as int, s as int);
        }
        let dv1 = Vec3 {
            x: mul_div(dir.x, f, s),
            y: mul_div(dir.y, f, s),
            z: mul_div(dir.z, f, s),
        };
        let dv = dv1.scaled(dt_ms, 1000);
        vel.add_clamped(&dv)
    }
}

/// The intermediate products of the kick stay inside `i64`, and the
/// normalized kick component is bounded by the force magnitude.
proof fn lemma_kick_scaled_fits(c: int, f: int, s: int)
    requires
        abs_i(c) <= s,
        1 <= s <= 3_037_000_500,
        0 <= f <= MAX_FORCE,
    ensures
        abs_i(c) * f <= i64::MAX,
        abs_i(spec_mul_div(c, f, s)) <= f,
{
    assert(abs_i(c) * f <= s * f && s * f <= 3_037_000_500 * 1_000_000) by (nonlinear_arith)
        requires
            0 <= abs_i(c) <= s,
            s <= 3_037_000_500,
            0 <= f <= 1_000_000,
    ;
    crate::fixed::lemma_mul_div_bounds(c, f, s);
    let q = abs_i(spec_mul_div(c, f, s));
    assert(q <= f) by (nonlinear_arith)
        requires
            q * s <= abs_i(c) * f,
            abs_i(c) <= s,
            0 <= f,
            s >= 1,
            q >= 0,
    ;
}

} // verus!
