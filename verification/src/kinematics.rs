//! Velocity integration, speed capping and world-boundary containment.
//!
//! Each tick, for each moving entity: an optional speed cap rescales the
//! velocity down to the cap when exceeded; the position advances by
//! `velocity * dt`; and a "keep in map" entity whose new position leaves
//! the world circle is clamped back onto it, with the excess that would
//! have carried it past the boundary removed from its velocity so that
//! it slides along the wall. The cap is enforced again after the
//! boundary correction, so a capped entity never ends a tick above its
//! cap.

use vstd::prelude::*;

use crate::fixed::WORLD_LIM;
use crate::vec3::Vec3;

verus! {

/// Radius of the playable map, in milli-units.
pub const MAP_RADIUS: i64 = 512_000;

/// Longest tick the simulation accepts, in milliseconds.
pub const MAX_TICK_MS: i64 = 1000;

/// An admissible tick length.
pub open spec fn valid_dt(dt_ms: int) -> bool {
    0 <= dt_ms <= MAX_TICK_MS
}

/// The velocity after speed-cap enforcement: rescaled onto the cap when
/// its norm exceeds it, untouched otherwise.
pub open spec fn spec_capped(vel: Vec3, cap: int) -> Vec3 {
    if vel.spec_norm_sq() > cap * cap {
        vel.spec_rescaled(cap)
    } else {
        vel
    }
}

/// Position and velocity after one kinematics step.
pub open spec fn spec_kinematics(
    pos: Vec3,
    vel: Vec3,
    max_velocity: Option<i64>,
    keep_in_map: bool,
    dt_ms: int,
) -> (Vec3, Vec3) {
    let v1 = match max_velocity {
        Some(cap) => spec_capped(vel, cap as int),
        None => vel,
    };
    let step = v1.spec_scaled(dt_ms, 1000);
    let p1 = pos.spec_add_clamped(step);
    if keep_in_map && p1.spec_norm_sq() > MAP_RADIUS * MAP_RADIUS {
        let p2 = p1.spec_rescaled(MAP_RADIUS as int);
        let q = p2.spec_add_clamped(step);
        let excess = if q.spec_norm_sq() > MAP_RADIUS * MAP_RADIUS {
            q.spec_sub(q.spec_rescaled(MAP_RADIUS as int))
        } else {
            Vec3 { x: 0 as i64, y: 0 as i64, z: 0 as i64 }
        };
        let v2 = v1.spec_sub_clamped(excess);
        let v3 = match max_velocity {
            Some(cap) => spec_capped(v2, cap as int),
            None => v2,
        };
        (p2, v3)
    } else {
        (p1, v1)
    }
}

/// Enforce a speed cap.
pub fn cap_velocity(vel: &Vec3, cap: i64) -> (r: Vec3)
    requires
        vel.wf(),
        0 <= cap <= WORLD_LIM,
    ensures
        r == spec_capped(*vel, cap as int),
        r.spec_norm_sq() <= cap * cap,
        r.wf(),
{
    proof {
        crate::fixed::lemma_rescale_cap_sq(cap as int);
    }
    let n = vel.norm_sq();
    if n > cap * cap {
        let r = vel.rescale_to(cap);
        r
    } else {
        proof {
            lemma_norm_components(*vel, cap as int);
        }
        *vel
    }
}

/// A vector whose squared norm is within `c * c` has components within `c`.
proof fn lemma_norm_components(v: Vec3, c: int)
    requires
        v.spec_norm_sq() <= c * c,
        c >= 0,
    ensures
        v.bounded_by(c),
{
    let x = v.x as int;
    let y = v.y as int;
    let z = v.z as int;
    assert(crate::fixed::abs_i(x) <= c && crate::fixed::abs_i(y) <= c && crate::fixed::abs_i(z)
        <= c) by (nonlinear_arith)
        requires
            x * x + y * y + z * z <= c * c,
            c >= 0,
    ;
}

/// One kinematics step for one entity.
///
/// The exact result is `spec_kinematics`; on top of that, two laws:
/// an entity with speed cap `m` ends the tick with squared speed at most
/// `m * m`, and a "keep in map" entity ends it with squared distance
/// from the origin at most `MAP_RADIUS^2`.
pub fn apply_velocity(
    pos: &Vec3,
    vel: &Vec3,
    max_velocity: Option<i64>,
    keep_in_map: bool,
    dt_ms: i64,
) -> (r: (Vec3, Vec3))
    requires
        pos.wf(),
        vel.wf(),
        valid_dt(dt_ms as int),
        max_velocity matches Some(cap) ==> 0 <= cap <= WORLD_LIM,
    ensures
        r == spec_kinematics(*pos, *vel, max_velocity, keep_in_map, dt_ms as int),
        r.0.wf(),
        r.1.wf(),
        max_velocity matches Some(cap) ==> r.1.spec_norm_sq() <= cap * cap,
        keep_in_map ==> r.0.spec_norm_sq() <= MAP_RADIUS * MAP_RADIUS,
{
    proof {
        crate::fixed::lemma_rescale_cap_sq(MAP_RADIUS as int);
    }
    let v1 = match max_velocity {
        Some(cap) => cap_velocity(vel, cap),
        None => *vel,
    };
    let step = v1.scaled(dt_ms, 1000);
    let p1 = pos.add_clamped(&step);
    let n1 = p1.norm_sq();
    if keep_in_map && n1 > MAP_RADIUS * MAP_RADIUS {
        let p2 = p1.rescale_to(MAP_RADIUS);
        let q = p2.add_clamped(&step);
        let nq = q.norm_sq();
        let excess = if nq > MAP_RADIUS * MAP_RADIUS {
            q.sub(&q.rescale_to(MAP_RADIUS))
        } else {
            Vec3::zero()
        };
        let v2 = v1.sub_clamped(&excess);
        let v3 = match max_velocity {
            Some(cap) => cap_velocity(&v2, cap),
            None => v2,
        };
        proof {
            lemma_norm_components(p2, MAP_RADIUS as int);
        }
        (p2, v3)
    } else {
        (p1, v1)
    }
}

} // verus!
