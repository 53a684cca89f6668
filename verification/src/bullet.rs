//! Bullet flight, homing and hit resolution.
//!
//! Each tick a bullet's time to live counts down; a homing bullet bends
//! its velocity toward its locked target with exponential smoothing
//! (per-millisecond decay constant `HOMING_DECAY_PER_MS`, chosen so the
//! old velocity keeps a `0.9` weight per sixtieth of a second); it despawns
//! when it leaves the bullet range, expires, or hits the first obstacle
//! whose collider group shares a bit with the bullet's filter. The
//! bullet's on-screen heading is presentation: the host derives it from
//! the velocity it reads in the per-tick snapshot.

use vstd::prelude::*;

use crate::collider::{
    groups_match, spec_celestial_exempt, spec_groups_match, GROUP_CELESTIAL, GROUP_PLAYER,
};
use crate::events::Tint;
use crate::fixed::{abs_i, mul_div, spec_decay, spec_mul_div, spec_sqrt_ceil, sqrt_ceil, MICRO,
    WORLD_LIM};
use crate::health::{Health, HEALTH_LIM};
use crate::kinematics::valid_dt;
use crate::ship::{BulletSpawn, BULLET_TTL_MS};
use crate::vec3::Vec3;

verus! {

/// A bullet despawns beyond this distance from the origin (milli-units).
pub const BULLET_RANGE: i64 = 1_024_000;

/// Per-millisecond decay of the old velocity's weight in the homing
/// blend (scale `MICRO`): `0.9` per sixtieth of a second.
pub const HOMING_DECAY_PER_MS: i64 = 993_698;

/// A bullet in flight. Its collider is a point: overlap is tested
/// against the obstacle's radius alone.
#[derive(Clone, Copy, Debug)]
pub struct Bullet {
    pub collider_filter: u32,
    /// Damage dealt on a hit, in milli hit points.
    pub damage: i64,
    pub time_to_live_ms: i64,
    pub position: Vec3,
    pub velocity: Vec3,
    /// Homing target: an index into the world's celestial bodies. A
    /// target that no longer resolves leaves the bullet ballistic.
    pub lock: Option<usize>,
    pub tint: Tint,
}

/// The bullet a ship's fire command describes, painted with a tint.
pub open spec fn spec_bullet_of(spawn: BulletSpawn, tint: Tint) -> Bullet {
    Bullet {
        collider_filter: spawn.filter,
        damage: spawn.damage,
        time_to_live_ms: spawn.ttl_ms,
        position: spawn.position,
        velocity: spawn.velocity,
        lock: spawn.lock,
        tint,
    }
}

impl Bullet {
    pub open spec fn wf(self) -> bool {
        &&& self.position.wf()
        &&& self.velocity.wf()
        &&& 0 <= self.damage <= HEALTH_LIM
        &&& -1_000_000_000 <= self.time_to_live_ms <= 1_000_000_000
    }

    /// Materialize the bullet a ship's fire command described.
    pub fn from_spawn(spawn: &BulletSpawn, tint: Tint) -> (r: Bullet)
        requires
            spawn.position.wf(),
            spawn.velocity.wf(),
            0 <= spawn.damage <= HEALTH_LIM,
            0 <= spawn.ttl_ms <= BULLET_TTL_MS,
        ensures
            r == spec_bullet_of(*spawn, tint),
            r.wf(),
    {
        Bullet {
            collider_filter: spawn.filter,
            damage: spawn.damage,
            time_to_live_ms: spawn.ttl_ms,
            position: spawn.position,
            velocity: spawn.velocity,
            lock: spawn.lock,
            tint,
        }
    }
}

/// Something a bullet can run into: a collider at a position.
#[derive(Clone, Copy, Debug)]
pub struct Obstacle {
    pub position: Vec3,
    pub radius: i64,
    pub group: u32,
}

impl Obstacle {
    pub open spec fn wf(self) -> bool {
        self.position.wf() && 0 <= self.radius <= WORLD_LIM
    }
}

/// The bullet's point position lies within the obstacle's circle.
pub open spec fn spec_overlaps(pos: Vec3, ob: Obstacle) -> bool {
    pos.spec_sub(ob.position).spec_norm_sq() <= ob.radius * ob.radius
}

/// The obstacle matches the bullet's filter and overlaps its position.
pub open spec fn spec_hits(filter: u32, pos: Vec3, ob: Obstacle) -> bool {
    spec_groups_match(filter, ob.group) && spec_overlaps(pos, ob)
}

/// The velocity after one homing blend toward a target position: the
/// velocity turns toward the target direction, rescaled to the current
/// speed, by the weight `1 - HOMING_DECAY_PER_MS^dt`.
pub open spec fn spec_homing_blend(pos: Vec3, vel: Vec3, target: Vec3, dt_ms: int) -> Vec3 {
    let dir = target.spec_sub(pos);
    if dir.spec_norm_sq() == 0 {
        vel
    } else {
        let speed = spec_sqrt_ceil(vel.spec_norm_sq());
        let tv = dir.spec_rescaled(speed);
        let alpha = (MICRO as int) - spec_decay(HOMING_DECAY_PER_MS as int, dt_ms as nat);
        let delta = Vec3 {
            x: spec_mul_div(tv.x - vel.x, alpha, MICRO as int) as i64,
            y: spec_mul_div(tv.y - vel.y, alpha, MICRO as int) as i64,
            z: spec_mul_div(tv.z - vel.z, alpha, MICRO as int) as i64,
        };
        vel.spec_add_clamped(delta)
    }
}

/// Blend a homing bullet's velocity toward its target.
pub fn homing_blend(pos: &Vec3, vel: &Vec3, target: &Vec3, dt_ms: i64) -> (r: Vec3)
    requires
        pos.wf(),
        vel.wf(),
        target.wf(),
        valid_dt(dt_ms as int),
    ensures
        r == spec_homing_blend(*pos, *vel, *target, dt_ms as int),
        r.wf(),
{
    let dir = target.sub(pos);
    let d2 = dir.norm_sq();
    if d2 == 0 {
        *vel
    } else {
        let n = vel.norm_sq();
        let speed = sqrt_ceil(n);
        proof {
            assert(n <= 1_920_000_000_000_000_000) by (nonlinear_arith)
                requires
                    n == (vel.x as int) * (vel.x as int) + (vel.y as int) * (vel.y as int) + (
                    vel.z as int) * (vel.z as int),
                    -800_000_000 <= vel.x <= 800_000_000,
                    -800_000_000 <= vel.y <= 800_000_000,
                    -800_000_000 <= vel.z <= 800_000_000,
            ;
            assert(speed <= 1_400_000_000) by (nonlinear_arith)
                requires
                    speed >= 1 ==> ((speed - 1) as int) * ((speed - 1) as int) < n,
                    speed >= 0,
                    n <= 1_920_000_000_000_000_000,
            ;
        }
        let tv = dir.rescale_to(speed);
        let alpha = MICRO - crate::fixed::decay_pow(HOMING_DECAY_PER_MS, dt_ms);
        proof {
            lemma_blend_delta_fits(tv.x as int, vel.x as int, alpha as int);
            lemma_blend_delta_fits(tv.y as int, vel.y as int, alpha as int);
            lemma_blend_delta_fits(tv.z as int, vel.z as int, alpha as int);
        }
        let delta = Vec3 {
            x: mul_div(tv.x - vel.x, alpha, MICRO),
            y: mul_div(tv.y - vel.y, alpha, MICRO),
            z: mul_div(tv.z - vel.z, alpha, MICRO),
        };
        vel.add_clamped(&delta)
    }
}

/// The blend delta stays inside `i64` and within four world bounds.
proof fn lemma_blend_delta_fits(t: int, v: int, alpha: int)
    requires
        abs_i(t) <= 1_400_000_000,
        abs_i(v) <= WORLD_LIM,
        0 <= alpha <= MICRO,
    ensures
        abs_i(t - v) * alpha <= i64::MAX,
        abs_i(spec_mul_div(t - v, alpha, MICRO as int)) <= 4 * WORLD_LIM,
{
    assert(abs_i(t - v) <= 2_200_000_000);
    assert(abs_i(t - v) * alpha <= 2_200_000_000 * 1_000_000) by (nonlinear_arith)
        requires
            0 <= abs_i(t - v) <= 2_200_000_000,
            0 <= alpha <= 1_000_000,
    ;
    crate::fixed::lemma_mul_div_bounds(t - v, alpha, MICRO as int);
    let q = abs_i(spec_mul_div(t - v, alpha, MICRO as int));
    assert(q <= abs_i(t - v)) by (nonlinear_arith)
        requires
            q * 1_000_000 <= abs_i(t - v) * alpha,
            0 <= alpha <= 1_000_000,
            abs_i(t - v) >= 0,
            q >= 0,
    ;
}

/// Flight state of a bullet after one tick, before hit resolution:
/// the countdown ticks, a resolvable lock bends the velocity, and the
/// bullet asks for removal once it is out of range or out of time.
pub open spec fn spec_update_flight(b: Bullet, target: Option<Vec3>, dt_ms: int) -> (Bullet, bool) {
    let vel = match target {
        Some(t) => spec_homing_blend(b.position, b.velocity, t, dt_ms),
        None => b.velocity,
    };
    let ttl = b.time_to_live_ms - dt_ms;
    let b1 = Bullet { time_to_live_ms: ttl as i64, velocity: vel, ..b };
    let expired = b1.position.spec_norm_sq() > BULLET_RANGE * BULLET_RANGE || ttl <= 0;
    (b1, expired)
}

/// Advance a bullet's countdown and homing; say whether it is due for
/// removal by range or expiry (a hit removes it separately).
pub fn update_flight(b: &mut Bullet, target: Option<&Vec3>, dt_ms: i64) -> (expired: bool)
    requires
        old(b).wf(),
        target matches Some(t) ==> t.wf(),
        valid_dt(dt_ms as int),
        old(b).time_to_live_ms - dt_ms >= -1_000_000_000,
    ensures
        (*final(b), expired) == spec_update_flight(*old(b), match target {
            Some(t) => Some(*t),
            None => None,
        }, dt_ms as int),
        final(b).wf(),
        expired == (final(b).position.spec_norm_sq() > BULLET_RANGE * BULLET_RANGE
            || final(b).time_to_live_ms <= 0),
{
    match target {
        Some(t) => {
            let v = homing_blend(&b.position, &b.velocity, t, dt_ms);
            b.velocity = v;
        },
        None => {},
    }
    b.time_to_live_ms = b.time_to_live_ms - dt_ms;
    proof {
        crate::fixed::lemma_rescale_cap_sq(BULLET_RANGE as int);
    }
    let out_of_range = b.position.norm_sq() > BULLET_RANGE * BULLET_RANGE;
    out_of_range || b.time_to_live_ms <= 0
}

/// Index of the first obstacle at or after `from` that the bullet hits.
pub open spec fn spec_first_hit(filter: u32, pos: Vec3, obs: Seq<Obstacle>, from: int) -> Option<
    int,
>
    decreases obs.len() - from,
{
    if from < 0 || from >= obs.len() {
        None
    } else if spec_hits(filter, pos, obs[from]) {
        Some(from)
    } else {
        spec_first_hit(filter, pos, obs, from + 1)
    }
}

/// Index of the first obstacle the bullet hits, scanning in order:
/// the first one whose group shares a bit with the filter and whose
/// circle contains the bullet's position. Obstacles whose group does
/// not match the filter are never chosen, whatever the distance.
pub fn scan_hit(pos: &Vec3, filter: u32, obstacles: &Vec<Obstacle>) -> (r: Option<usize>)
    requires
        pos.wf(),
        forall|j: int| 0 <= j < obstacles@.len() ==> #[trigger] obstacles@[j].wf(),
    ensures
        match r {
            Some(i) => {
                &&& spec_first_hit(filter, *pos, obstacles@, 0) == Some(i as int)
                &&& i < obstacles@.len()
                &&& spec_hits(filter, *pos, obstacles@[i as int])
                &&& forall|j: int| 0 <= j < i ==> !spec_hits(filter, *pos, #[trigger] obstacles@[j])
            },
            None => {
                &&& spec_first_hit(filter, *pos, obstacles@, 0) is None
                &&& forall|j: int|
                    0 <= j < obstacles@.len() ==> !spec_hits(filter, *pos, #[trigger] obstacles@[j])
            },
        },
{
    let mut i: usize = 0;
    while i < obstacles.len()
        invariant
            0 <= i <= obstacles@.len(),
            pos.wf(),
            forall|j: int| 0 <= j < obstacles@.len() ==> #[trigger] obstacles@[j].wf(),
            forall|j: int| 0 <= j < i ==> !spec_hits(filter, *pos, #[trigger] obstacles@[j]),
            spec_first_hit(filter, *pos, obstacles@, 0) == spec_first_hit(
                filter,
                *pos,
                obstacles@,
                i as int,
            ),
        decreases obstacles@.len() - i,
    {
        let ob = &obstacles[i];
        proof {
            assert(obstacles@[i as int].wf());
        }
        if groups_match(filter, ob.group) {
            proof {
                crate::fixed::lemma_rescale_cap_sq(ob.radius as int);
            }
            let d2 = pos.dist_sq(&ob.position);
            if d2 <= ob.radius * ob.radius {
                return Some(i);
            }
        }
        i = i + 1;
    }
    None
}

/// Damage actually dealt by a hit: the bullet's damage, except that the
/// celestial friendly-fire exemption suppresses it entirely.
pub open spec fn spec_hit_damage(filter: u32, group: u32, damage: int) -> int {
    if spec_celestial_exempt(filter, group) {
        0
    } else {
        damage
    }
}

pub fn hit_damage(filter: u32, group: u32, damage: i64) -> (r: i64)
    requires
        0 <= damage,
    ensures
        r == spec_hit_damage(filter, group, damage as int),
        0 <= r <= damage,
{
    if crate::collider::celestial_exempt(filter, group) {
        0
    } else {
        damage
    }
}

/// Law (friendly-fire exemption): on a celestial target with health, a
/// bullet whose filter excludes the player bit deals no damage at all,
/// and one whose filter includes it deals exactly its damage value.
pub proof fn lemma_friendly_fire_exemption(filter: u32, group: u32, damage: int, h: Health)
    requires
        group & GROUP_CELESTIAL != 0,
        h.wf(),
        0 <= damage,
    ensures
        filter & GROUP_PLAYER == 0 ==> h.spec_damaged(
            spec_hit_damage(filter, group, damage),
        ).spec_current() == h.spec_current(),
        filter & GROUP_PLAYER != 0 ==> h.spec_damaged(spec_hit_damage(filter, group, damage))
            == h.spec_damaged(damage),
{
    if filter & GROUP_PLAYER == 0 {
        assert(spec_hit_damage(filter, group, damage) == 0);
        crate::health::lemma_with_current(h, h.spec_current());
    }
}

/// Law (collision group filter): an obstacle whose group shares no bit
/// with the bullet's filter is never the scan's hit, whatever the
/// distance between them.
pub proof fn lemma_filter_never_hits(filter: u32, pos: Vec3, ob: Obstacle)
    requires
        filter & ob.group == 0,
    ensures
        !spec_hits(filter, pos, ob),
{
}

} // verus!
