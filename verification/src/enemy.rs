//! Enemy AI: lazy target choice, approach/attack steering, firing
//! cadence, spawn cadence and death conditions.
//!
//! Steering convention: the signed bearing to the target is measured by
//! the dot product of the target direction with the ship's right axis
//! `(cos r, sin r)` — the sine of the angle off the nose, times the
//! distance. The dead zone is 2.5 degrees and the firing cone 10
//! degrees, both compared through their sines against the ceiling norm
//! of the target direction.

use vstd::prelude::*;

use crate::bullet::Obstacle;
use crate::fixed::{abs_i, mul_div, spec_sqrt_ceil, sqrt_ceil, MICRO, WORLD_LIM};
use crate::kinematics::MAP_RADIUS;
use crate::planet::PROGRESS_LIM;
use crate::ship::Steering;
use crate::trig::{
    angle_mod, cos_units, sin_units, spec_angle_mod, spec_cos, spec_sin, ANGLE_HALF_PI, ANGLE_TAU,
    TRIG_ONE,
};
use crate::vec3::Vec3;

verus! {

/// Sine of the steering dead zone (2.5 degrees), scale `TRIG_ONE`.
pub const STEER_DEADZONE_SIN: i64 = 436;

/// Sine of the firing cone (10 degrees), scale `TRIG_ONE`.
pub const FIRE_CONE_SIN: i64 = 1736;

/// Saturation bound of the elapsed-time clock, in milliseconds.
pub const ELAPSED_LIM: i64 = 1_000_000_000;

/// What an enemy hunts. Chosen once per lifetime and then fixed.
#[derive(Clone, Copy, Debug, PartialEq, Eq, Structural)]
pub enum EnemyTarget {
    Player,
    Home,
}

/// The AI state attached to an enemy ship.
#[derive(Clone, Copy, Debug)]
pub struct Enemy {
    /// Resolved target, cached after the first update of the lifetime.
    pub target: Option<EnemyTarget>,
    /// Clock reading of the last shot, in milliseconds.
    pub last_shot_ms: i64,
    /// Scales the level's base damage (thousandths); the final wave's
    /// distractor enemies carry zero.
    pub damage_multiplier_milli: i64,
}

impl Enemy {
    pub open spec fn wf(self) -> bool {
        &&& 0 <= self.last_shot_ms <= ELAPSED_LIM
        &&& 0 <= self.damage_multiplier_milli <= 1000
    }

    pub fn new(damage_multiplier_milli: i64) -> (r: Enemy)
        requires
            0 <= damage_multiplier_milli <= 1000,
        ensures
            r == (Enemy { target: None, last_shot_ms: 0 as i64, damage_multiplier_milli }),
            r.wf(),
    {
        Enemy { target: None, last_shot_ms: 0, damage_multiplier_milli }
    }
}

/// Throttle threshold, brake threshold, firing range (milli-units) and
/// reload time (ms) for a target kind: dogfight close against the
/// player, siege from range against the home planet.
pub open spec fn spec_target_params(target: EnemyTarget) -> (i64, i64, i64, i64) {
    match target {
        EnemyTarget::Player => (100_000 as i64, 50_000 as i64, 250_000 as i64, 500 as i64),
        EnemyTarget::Home => (300_000 as i64, 300_000 as i64, 500_000 as i64, 1000 as i64),
    }
}

/// Look the thresholds of a target kind up.
pub fn target_params(target: EnemyTarget) -> (r: (i64, i64, i64, i64))
    ensures
        r == spec_target_params(target),
        target == EnemyTarget::Player ==> r == (100_000 as i64, 50_000 as i64, 250_000 as i64, 500 as i64),
        target == EnemyTarget::Home ==> r == (300_000 as i64, 300_000 as i64, 500_000 as i64, 1000 as i64),
{
    match target {
        EnemyTarget::Player => (100_000, 50_000, 250_000, 500),
        EnemyTarget::Home => (300_000, 300_000, 500_000, 1000),
    }
}

/// The target a fresh enemy picks: forced to the home planet with the
/// level's probability, otherwise whichever of player and home is
/// nearer by straight-line distance.
pub open spec fn spec_choose_target(
    draw_milli: int,
    prob_milli: int,
    d2_player: int,
    d2_home: int,
) -> EnemyTarget {
    if draw_milli < prob_milli {
        EnemyTarget::Home
    } else if d2_player < d2_home {
        EnemyTarget::Player
    } else {
        EnemyTarget::Home
    }
}

/// Resolve the enemy's target: the cached choice if one exists, else
/// the choice the draw and the distances dictate, which is then cached
/// for the rest of the enemy's lifetime (no re-targeting).
pub fn resolve_target(
    enemy: &mut Enemy,
    draw_milli: i64,
    prob_milli: i64,
    d2_player: i64,
    d2_home: i64,
) -> (t: EnemyTarget)
    ensures
        old(enemy).target matches Some(t0) ==> (t == t0 && *final(enemy) == *old(enemy)),
        old(enemy).target is None ==> {
            &&& t == spec_choose_target(
                draw_milli as int,
                prob_milli as int,
                d2_player as int,
                d2_home as int,
            )
            &&& *final(enemy) == (Enemy { target: Some(t), ..*old(enemy) })
        },
        final(enemy).target == Some(t),
        old(enemy).wf() ==> final(enemy).wf(),
{
    match enemy.target {
        Some(t0) => t0,
        None => {
            let t = if draw_milli < prob_milli {
                EnemyTarget::Home
            } else if d2_player < d2_home {
                EnemyTarget::Player
            } else {
                EnemyTarget::Home
            };
            enemy.target = Some(t);
            t
        },
    }
}

/// Signed bearing measure: the dot product of the offset to the target
/// with the ship's right axis. Positive means the target lies to the
/// ship's right.
pub open spec fn spec_bearing_dot(dir: Vec3, rotation: int) -> int {
    dir.x * spec_cos(rotation) + dir.y * spec_sin(rotation)
}

/// Steering, throttle, brake and fire decisions of one AI tick.
pub open spec fn spec_ai_commands(
    pos: Vec3,
    rotation: int,
    target_pos: Vec3,
    throttle_thr: int,
    brake_thr: int,
    shoot_range: int,
    reload_ms: int,
    elapsed_ms: int,
    last_shot_ms: int,
) -> (Steering, bool, bool, bool) {
    let dir = target_pos.spec_sub(pos);
    let d2 = dir.spec_norm_sq();
    let dist = spec_sqrt_ceil(d2);
    let dot = spec_bearing_dot(dir, rotation);
    let steering = if dot > STEER_DEADZONE_SIN * dist {
        Steering::Right
    } else if dot < -STEER_DEADZONE_SIN * dist {
        Steering::Left
    } else {
        Steering::Straight
    };
    let throttle = d2 > throttle_thr * throttle_thr;
    let brake = d2 < brake_thr * brake_thr;
    let fire = d2 < shoot_range * shoot_range && abs_i(dot) < FIRE_CONE_SIN * dist && elapsed_ms
        - last_shot_ms > reload_ms;
    (steering, throttle, brake, fire)
}

/// One AI decision tick: steer toward the target (dead zone 2.5
/// degrees), throttle when far, brake when close, and fire when inside
/// range and the 10-degree cone once the reload time has passed.
pub fn ai_commands(
    pos: &Vec3,
    rotation: i64,
    target_pos: &Vec3,
    throttle_thr: i64,
    brake_thr: i64,
    shoot_range: i64,
    reload_ms: i64,
    elapsed_ms: i64,
    last_shot_ms: i64,
) -> (r: (Steering, bool, bool, bool))
    requires
        pos.wf(),
        target_pos.wf(),
        0 <= rotation < ANGLE_TAU,
        0 <= throttle_thr <= WORLD_LIM,
        0 <= brake_thr <= WORLD_LIM,
        0 <= shoot_range <= WORLD_LIM,
        0 <= reload_ms <= ELAPSED_LIM,
        0 <= elapsed_ms <= ELAPSED_LIM,
        0 <= last_shot_ms <= ELAPSED_LIM,
    ensures
        r == spec_ai_commands(
            *pos,
            rotation as int,
            *target_pos,
            throttle_thr as int,
            brake_thr as int,
            shoot_range as int,
            reload_ms as int,
            elapsed_ms as int,
            last_shot_ms as int,
        ),
{
    let dir = target_pos.sub(pos);
    let d2 = dir.norm_sq();
    let dist = sqrt_ceil(d2);
    let c = cos_units(rotation);
    let s = sin_units(rotation);
    proof {
        lemma_bearing_fits(dir.x as int, c as int);
        lemma_bearing_fits(dir.y as int, s as int);
        assert((STEER_DEADZONE_SIN as int) * (dist as int) <= 436 * 3_037_000_500
            && (FIRE_CONE_SIN as int) * (dist as int) <= 1736 * 3_037_000_500
            && 0 <= (STEER_DEADZONE_SIN as int) * (dist as int)
            && 0 <= (FIRE_CONE_SIN as int) * (dist as int)) by (nonlinear_arith)
            requires
                0 <= dist <= 3_037_000_500,
        ;
        crate::fixed::lemma_rescale_cap_sq(throttle_thr as int);
        crate::fixed::lemma_rescale_cap_sq(brake_thr as int);
        crate::fixed::lemma_rescale_cap_sq(shoot_range as int);
    }
    let dot = dir.x * c + dir.y * s;
    let steering = if dot > STEER_DEADZONE_SIN * dist {
        Steering::Right
    } else if dot < -(STEER_DEADZONE_SIN * dist) {
        Steering::Left
    } else {
        Steering::Straight
    };
    let throttle = d2 > throttle_thr * throttle_thr;
    let brake = d2 < brake_thr * brake_thr;
    let abs_dot = if dot >= 0 {
        dot
    } else {
        -dot
    };
    let fire = d2 < shoot_range * shoot_range && abs_dot < FIRE_CONE_SIN * dist && elapsed_ms
        - last_shot_ms > reload_ms;
    (steering, throttle, brake, fire)
}

/// A bearing-dot term stays inside `i64`.
proof fn lemma_bearing_fits(d: int, t: int)
    requires
        abs_i(d) <= 2 * WORLD_LIM,
        abs_i(t) <= TRIG_ONE,
    ensures
        -16_000_000_000_000 <= d * t <= 16_000_000_000_000,
{
    assert(-16_000_000_000_000 <= d * t <= 16_000_000_000_000) by (nonlinear_arith)
        requires
            abs_i(d) <= 1_600_000_000,
            abs_i(t) <= 10_000,
            abs_i(d) == d || abs_i(d) == -d,
            abs_i(t) == t || abs_i(t) == -t,
            abs_i(d) >= 0,
            abs_i(t) >= 0,
    ;
}

/// A ship overlaps a celestial body when the distance between centers
/// is within the sum of the radii.
pub open spec fn spec_ship_overlaps(pos: Vec3, radius: int, ob: Obstacle) -> bool {
    pos.spec_sub(ob.position).spec_norm_sq() <= (radius + ob.radius) * (radius + ob.radius)
}

/// Whether the ship overlaps any of the bodies (instant death: ships
/// that fly into planets or the star are destroyed, bullets aside).
pub fn ship_hits_any_body(pos: &Vec3, radius: i64, bodies: &Vec<Obstacle>) -> (r: bool)
    requires
        pos.wf(),
        0 <= radius <= WORLD_LIM,
        forall|j: int| 0 <= j < bodies@.len() ==> (#[trigger] bodies@[j]).wf(),
    ensures
        r == exists|j: int|
            0 <= j < bodies@.len() && spec_ship_overlaps(*pos, radius as int, #[trigger] bodies@[j]),
{
    let mut i: usize = 0;
    while i < bodies.len()
        invariant
            0 <= i <= bodies@.len(),
            pos.wf(),
            0 <= radius <= WORLD_LIM,
            forall|j: int| 0 <= j < bodies@.len() ==> (#[trigger] bodies@[j]).wf(),
            forall|j: int| 0 <= j < i ==> !spec_ship_overlaps(*pos, radius as int, #[trigger] bodies@[j]),
        decreases bodies@.len() - i,
    {
        let ob = &bodies[i];
        proof {
            assert(bodies@[i as int].wf());
            crate::fixed::lemma_rescale_cap_sq(radius + ob.radius as int);
        }
        let d2 = pos.dist_sq(&ob.position);
        let rsum = radius + ob.radius;
        if d2 <= rsum * rsum {
            return true;
        }
        i = i + 1;
    }
    false
}

/// The repeating spawn timer and the one-shot final-wave flag.
#[derive(Clone, Copy, Debug)]
pub struct EnemySpawner {
    /// Milliseconds until the next regular spawn.
    pub timer_remaining_ms: i64,
    /// Whether the one-time final wave has already spawned.
    pub spawned_final_wave: bool,
}

impl EnemySpawner {
    pub open spec fn wf(self) -> bool {
        0 <= self.timer_remaining_ms <= 1_000_000_000
    }

    pub fn new(interval_ms: i64) -> (r: EnemySpawner)
        requires
            0 < interval_ms <= 1_000_000_000,
        ensures
            r == (EnemySpawner { timer_remaining_ms: interval_ms, spawned_final_wave: false }),
            r.wf(),
    {
        EnemySpawner { timer_remaining_ms: interval_ms, spawned_final_wave: false }
    }

    /// Advance the repeating timer: it fires (at most once per tick)
    /// when the tick consumes what remained, then restarts at the
    /// interval.
    pub fn tick(&mut self, dt_ms: i64, interval_ms: i64) -> (fired: bool)
        requires
            old(self).wf(),
            crate::kinematics::valid_dt(dt_ms as int),
            0 < interval_ms <= 1_000_000_000,
        ensures
            fired == (old(self).timer_remaining_ms <= dt_ms),
            final(self).timer_remaining_ms == if fired {
                interval_ms as int
            } else {
                old(self).timer_remaining_ms - dt_ms
            },
            final(self).spawned_final_wave == old(self).spawned_final_wave,
            final(self).wf(),
    {
        if self.timer_remaining_ms <= dt_ms {
            self.timer_remaining_ms = interval_ms;
            true
        } else {
            self.timer_remaining_ms = self.timer_remaining_ms - dt_ms;
            false
        }
    }
}

/// The final wave is due when less than one second of the home orbit
/// remains: `orbit_time * (1 - progress) < 1s`.
pub open spec fn spec_final_wave_due(progress_micro: int, orbit_time_ms: int) -> bool {
    orbit_time_ms * (MICRO - progress_micro) < 1000 * (MICRO as int)
}

pub fn final_wave_due(progress_micro: i64, orbit_time_ms: i64) -> (r: bool)
    requires
        0 <= progress_micro <= PROGRESS_LIM,
        0 < orbit_time_ms <= 1_000_000_000,
    ensures
        r == spec_final_wave_due(progress_micro as int, orbit_time_ms as int),
{
    proof {
        assert(-1_000_000_000_000_000_000 <= (orbit_time_ms as int) * ((MICRO as int)
            - progress_micro) <= 1_000_000_000_000_000_000) by (nonlinear_arith)
            requires
                0 < orbit_time_ms <= 1_000_000_000,
                -1_000_000_000 <= (MICRO as int) - progress_micro <= 1_000_000,
        ;
    }
    orbit_time_ms * (MICRO - progress_micro) < 1000 * MICRO
}

/// Spawn placement of a fresh enemy: a point on the map-radius ring at
/// the drawn angle, heading tangentially (a quarter turn past the
/// ring angle).
pub fn spawn_placement(angle: i64) -> (r: (Vec3, i64))
    requires
        0 <= angle < ANGLE_TAU,
    ensures
        r.0 == (Vec3 {
            x: crate::fixed::spec_mul_div(spec_cos(angle as int), MAP_RADIUS as int, TRIG_ONE as int) as i64,
            y: crate::fixed::spec_mul_div(spec_sin(angle as int), MAP_RADIUS as int, TRIG_ONE as int) as i64,
            z: 0 as i64,
        }),
        r.0.wf(),
        r.0.bounded_by(MAP_RADIUS as int),
        r.1 == spec_angle_mod(angle + ANGLE_HALF_PI),
        0 <= r.1 < ANGLE_TAU,
{
    let c = cos_units(angle);
    let s = sin_units(angle);
    proof {
        crate::ship::lemma_fwd_scale_fits(c as int, MAP_RADIUS as int, TRIG_ONE as int,
            MAP_RADIUS as int);
        crate::ship::lemma_fwd_scale_fits(s as int, MAP_RADIUS as int, TRIG_ONE as int,
            MAP_RADIUS as int);
    }
    let pos = Vec3 {
        x: mul_div(c, MAP_RADIUS, TRIG_ONE),
        y: mul_div(s, MAP_RADIUS, TRIG_ONE),
        z: 0,
    };
    let rot = angle_mod(angle + ANGLE_HALF_PI);
    (pos, rot)
}

} // verus!
