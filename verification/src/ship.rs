//! The per-ship control and weapon state machine.
//!
//! Steering turns the ship at a fixed rate, throttle accelerates it
//! along its heading, brake applies speed-dependent drag, and a pending
//! `shoot` command spawns exactly one bullet and is drained. A ship's
//! forward axis is its local `+y`, rotated by `rotation`:
//! `(-sin r, cos r)`.

use vstd::prelude::*;

use crate::collider::spec_bullet_filter;
use crate::fixed::abs_i;
use crate::health::HEALTH_LIM;
use crate::kinematics::valid_dt;
use crate::trig::{
    angle_mod, cos_units, sin_units, spec_angle_mod, spec_cos, spec_sin, ANGLE_TAU, TRIG_ONE,
};
use crate::vec3::{lemma_mul_le, lemma_scaled_le, Vec3};

verus! {

/// Turn rate, in angle units per millisecond (3 radians per second).
pub const TURN_RATE_PER_MS: i64 = 3;

/// Thrust acceleration, in milli-units per second squared.
pub const THRUST_ACCEL: i64 = 300_000;

/// Speed cap of every ship, in milli-units per second.
pub const SHIP_MAX_SPEED: i64 = 180_000;

/// Collider radius of every ship, in milli-units.
pub const SHIP_RADIUS: i64 = 12_000;

/// Muzzle speed of a bullet, in milli-units per second.
pub const MUZZLE_SPEED: i64 = 256_000;

/// Distance from the ship at which a bullet spawns, in milli-units.
pub const MUZZLE_OFFSET: i64 = 10_000;

/// Lifetime of a bullet, in milliseconds.
pub const BULLET_TTL_MS: i64 = 20_000;

/// Gravity susceptibility of a bullet (10.0).
pub const BULLET_GRAVITY_MULT: i64 = 10_000;

/// Squared speed under which the brake drags gently (50 units/s).
pub const BRAKE_SOFT_SPEED: i64 = 50_000;

/// A steering command.
#[derive(Clone, Copy, Debug, PartialEq, Eq, Structural)]
pub enum Steering {
    Left,
    Right,
    Straight,
}

/// The mutable control state of a ship (player or enemy).
#[derive(Clone, Copy, Debug)]
pub struct SpaceShip {
    /// Heading, in angle units, kept reduced into `[0, ANGLE_TAU)`.
    pub rotation: i64,
    pub throttle: bool,
    pub brake: bool,
    pub steering: Steering,
    /// Pending fire command: the damage (milli) of the bullet to spawn
    /// this tick. Drained on update.
    pub shoot: Option<i64>,
    /// Target the next spawned bullet should home toward, as an index
    /// into the world's celestial bodies.
    pub shoot_missile_lock: Option<usize>,
}

impl SpaceShip {
    pub open spec fn wf(self) -> bool {
        &&& 0 <= self.rotation < ANGLE_TAU
        &&& match self.shoot {
            Some(d) => 0 <= d <= HEALTH_LIM,
            None => true,
        }
    }

    /// A fresh ship at a given heading, with no commands pending.
    pub fn new(rotation: i64) -> (r: SpaceShip)
        requires
            -1_000_000_000 <= rotation <= 1_000_000_000,
        ensures
            r.wf(),
            r.rotation == spec_angle_mod(rotation as int),
            r.throttle == false,
            r.brake == false,
            r.steering == Steering::Straight,
            r.shoot is None,
            r.shoot_missile_lock is None,
    {
        SpaceShip {
            rotation: angle_mod(rotation),
            throttle: false,
            brake: false,
            steering: Steering::Straight,
            shoot: None,
            shoot_missile_lock: None,
        }
    }
}

/// A bullet to be added to the world, produced by a fire command.
#[derive(Clone, Copy, Debug)]
pub struct BulletSpawn {
    pub filter: u32,
    pub damage: i64,
    pub ttl_ms: i64,
    pub position: Vec3,
    pub velocity: Vec3,
    pub lock: Option<usize>,
}

/// The ship's forward unit axis (scale `TRIG_ONE`), i.e. local `+y`
/// rotated by `rotation`.
pub open spec fn spec_forward(rotation: int) -> Vec3 {
    Vec3 {
        x: (-spec_sin(rotation)) as i64,
        y: spec_cos(rotation) as i64,
        z: 0 as i64,
    }
}

/// Compute the forward axis of a reduced heading.
pub fn forward_vec(rotation: i64) -> (r: Vec3)
    requires
        0 <= rotation < ANGLE_TAU,
    ensures
        r == spec_forward(rotation as int),
        r.bounded_by(TRIG_ONE as int),
{
    Vec3 { x: -sin_units(rotation), y: cos_units(rotation), z: 0 }
}

/// Heading change of one tick of steering.
pub open spec fn spec_steer_delta(steering: Steering, dt_ms: int) -> int {
    match steering {
        Steering::Left => TURN_RATE_PER_MS * dt_ms,
        Steering::Right => -TURN_RATE_PER_MS * dt_ms,
        Steering::Straight => 0,
    }
}

/// The drag numerator of one brake tick (denominator `MICRO`): gentler
/// when the ship is already slow.
pub open spec fn spec_drag_num(vel: Vec3, dt_ms: int) -> int {
    if vel.spec_norm_sq() < BRAKE_SOFT_SPEED * BRAKE_SOFT_SPEED {
        990 * dt_ms
    } else {
        900 * dt_ms
    }
}

/// Everything one control tick changes: the ship state, the velocity,
/// and the bullet it may have fired.
pub open spec fn spec_update_ship(
    ship: SpaceShip,
    group: u32,
    pos: Vec3,
    vel: Vec3,
    dt_ms: int,
) -> (SpaceShip, Vec3, Option<BulletSpawn>) {
    let rot = spec_angle_mod(ship.rotation + spec_steer_delta(ship.steering, dt_ms));
    let fwd = spec_forward(rot);
    let v1 = if ship.throttle {
        vel.spec_add_clamped(fwd.spec_scaled(THRUST_ACCEL * dt_ms, (TRIG_ONE * 1000) as int))
    } else {
        vel
    };
    let v2 = if ship.brake {
        v1.spec_sub_clamped(v1.spec_scaled(spec_drag_num(v1, dt_ms), 1_000_000))
    } else {
        v1
    };
    let spawn = match ship.shoot {
        Some(damage) => Some(
            BulletSpawn {
                filter: spec_bullet_filter(group),
                damage,
                ttl_ms: BULLET_TTL_MS,
                // `MUZZLE_OFFSET` equals the forward axis scale
                // `TRIG_ONE`, so the offset in milli-units is the axis
                // itself.
                position: pos.spec_add_clamped(fwd),
                velocity: fwd.spec_scaled(MUZZLE_SPEED as int, TRIG_ONE as int),
                lock: ship.shoot_missile_lock,
            },
        ),
        None => None,
    };
    let ship1 = SpaceShip { rotation: rot as i64, shoot: None, ..ship };
    (ship1, v2, spawn)
}

/// One control tick of one ship.
///
/// Exact behaviour is `spec_update_ship`; the one-shot weapon law is
/// restated on top of it: a pending `shoot = Some(d)` spawns exactly one
/// bullet of damage `d` and is drained, and without a pending command no
/// bullet spawns, however long fire is held.
pub fn update_space_ship(
    ship: &mut SpaceShip,
    group: u32,
    pos: &Vec3,
    vel: &Vec3,
    dt_ms: i64,
) -> (r: (Vec3, Option<BulletSpawn>))
    requires
        old(ship).wf(),
        pos.wf(),
        vel.wf(),
        valid_dt(dt_ms as int),
    ensures
        (*final(ship), r.0, r.1) == spec_update_ship(*old(ship), group, *pos, *vel, dt_ms as int),
        final(ship).wf(),
        r.0.wf(),
        final(ship).shoot is None,
        old(ship).shoot matches Some(d) ==> (r.1 matches Some(spawn) && spawn.damage == d),
        old(ship).shoot is None ==> r.1 is None,
        r.1 matches Some(spawn) ==> (spawn.position.wf() && spawn.velocity.wf() && spawn.ttl_ms
            == BULLET_TTL_MS && 0 <= spawn.damage <= HEALTH_LIM && spawn.lock == old(
            ship,
        ).shoot_missile_lock),
{
    let steer: i64 = match ship.steering {
        Steering::Left => TURN_RATE_PER_MS * dt_ms,
        Steering::Right => -(TURN_RATE_PER_MS * dt_ms),
        Steering::Straight => 0,
    };
    let rot = angle_mod(ship.rotation + steer);
    ship.rotation = rot;
    let fwd = forward_vec(rot);

    let mut new_vel = *vel;
    if ship.throttle {
        proof {
            lemma_fwd_scale_fits(fwd.x as int, THRUST_ACCEL * dt_ms as int, 10_000_000, 300_000);
            lemma_fwd_scale_fits(fwd.y as int, THRUST_ACCEL * dt_ms as int, 10_000_000, 300_000);
            lemma_fwd_scale_fits(fwd.z as int, THRUST_ACCEL * dt_ms as int, 10_000_000, 300_000);
        }
        let kick = fwd.scaled(THRUST_ACCEL * dt_ms, TRIG_ONE * 1000);
        new_vel = vel.add_clamped(&kick);
    }
    if ship.brake {
        let n = new_vel.norm_sq();
        let drag_num: i64 = if n < BRAKE_SOFT_SPEED * BRAKE_SOFT_SPEED {
            990 * dt_ms
        } else {
            900 * dt_ms
        };
        let drag = new_vel.scaled(drag_num, 1_000_000);
        new_vel = new_vel.sub_clamped(&drag);
    }

    let spawn = match ship.shoot {
        Some(damage) => {
            proof {
                lemma_fwd_scale_fits(fwd.x as int, MUZZLE_SPEED as int, TRIG_ONE as int, 256_000);
                lemma_fwd_scale_fits(fwd.y as int, MUZZLE_SPEED as int, TRIG_ONE as int, 256_000);
                lemma_fwd_scale_fits(fwd.z as int, MUZZLE_SPEED as int, TRIG_ONE as int, 256_000);
            }
            Some(
                BulletSpawn {
                    filter: crate::collider::bullet_filter(group),
                    damage,
                    ttl_ms: BULLET_TTL_MS,
                    position: pos.add_clamped(&fwd),
                    velocity: fwd.scaled(MUZZLE_SPEED, TRIG_ONE),
                    lock: ship.shoot_missile_lock,
                },
            )
        },
        None => None,
    };
    ship.shoot = None;
    (new_vel, spawn)
}

/// Scaling a trig-bounded component by `num / den` keeps it within `b`
/// whenever `TRIG_ONE * num <= b * den`.
pub proof fn lemma_fwd_scale_fits(c: int, num: int, den: int, b: int)
    requires
        abs_i(c) <= TRIG_ONE,
        0 <= num <= 2_000_000_000,
        0 < den,
        0 <= b <= crate::fixed::WORLD_LIM,
        TRIG_ONE * num <= b * den,
    ensures
        abs_i(crate::fixed::spec_mul_div(c, num, den)) <= b,
        abs_i(c) * num <= i64::MAX,
{
    lemma_mul_le(abs_i(c), num, TRIG_ONE as int, num);
    assert(abs_i(c) * num <= b * den) by (nonlinear_arith)
        requires
            abs_i(c) * num <= TRIG_ONE * num,
            TRIG_ONE * num <= b * den,
    ;
    assert(TRIG_ONE * num <= 20_000_000_000_000) by (nonlinear_arith)
        requires
            0 <= num <= 2_000_000_000,
            TRIG_ONE == 10_000,
    ;
    lemma_scaled_le(c, num, den, b);
}

} // verus!
