//! The per-tick event outbox and explosion bookkeeping.
//!
//! Collision and death logic appends events in order; the host drains
//! the outbox at the end of the tick to play sounds and flashes. The
//! first explosion of a tick plays at full volume and every following
//! one at half the previous, which `explosion_volume_milli` reproduces.

use vstd::prelude::*;

use crate::fixed::{mul_div, spec_mul_div};
use crate::trig::{cos_units, sin_units, spec_cos, spec_sin, ANGLE_TAU, TRIG_ONE};
use crate::vec3::Vec3;

verus! {

/// Visual-style tag standing for the host's material handles.
#[derive(Clone, Copy, Debug, PartialEq, Eq, Structural)]
pub enum Tint {
    PlayerShip,
    EnemyShip,
    PlayerBullet,
    EnemyBullet,
    Home,
}

/// Size class of an explosion.
#[derive(Clone, Copy, Debug, PartialEq, Eq, Structural)]
pub enum ExplosionKind {
    Small,
    Large,
}

impl ExplosionKind {
    /// Number of particles thrown outward.
    pub fn particle_count(&self) -> (r: usize)
        ensures
            r == self.spec_particle_count(),
            1 <= r <= 12,
    {
        match self {
            ExplosionKind::Small => 10,
            ExplosionKind::Large => 12,
        }
    }

    pub open spec fn spec_particle_count(self) -> int {
        match self {
            ExplosionKind::Small => 10,
            ExplosionKind::Large => 12,
        }
    }

    /// Initial particle speed, milli-units per second.
    pub fn initial_speed(&self) -> (r: i64)
        ensures
            r == self.spec_initial_speed(),
    {
        match self {
            ExplosionKind::Small => 64_000,
            ExplosionKind::Large => 40_000,
        }
    }

    pub open spec fn spec_initial_speed(self) -> int {
        match self {
            ExplosionKind::Small => 64_000,
            ExplosionKind::Large => 40_000,
        }
    }

    /// How long the explosion lives, in milliseconds.
    pub fn time_to_live_ms(&self) -> (r: i64)
        ensures
            r == self.spec_time_to_live_ms(),
    {
        match self {
            ExplosionKind::Small => 300,
            ExplosionKind::Large => 700,
        }
    }

    pub open spec fn spec_time_to_live_ms(self) -> int {
        match self {
            ExplosionKind::Small => 300,
            ExplosionKind::Large => 700,
        }
    }

    /// Particle sprite scale, in thousandths.
    pub fn size_milli(&self) -> (r: i64)
        ensures
            r == (match self {
                ExplosionKind::Small => 1000int,
                ExplosionKind::Large => 1500int,
            }),
    {
        match self {
            ExplosionKind::Small => 1000,
            ExplosionKind::Large => 1500,
        }
    }

    /// Base sound volume, in thousandths.
    pub fn volume_milli(&self) -> (r: i64)
        ensures
            r == self.spec_volume_milli(),
            0 <= r <= 2000,
    {
        match self {
            ExplosionKind::Small => 500,
            ExplosionKind::Large => 2000,
        }
    }

    pub open spec fn spec_volume_milli(self) -> int {
        match self {
            ExplosionKind::Small => 500,
            ExplosionKind::Large => 2000,
        }
    }

    /// Sound playback speed, in thousandths.
    pub fn audio_speed_milli(&self) -> (r: i64)
        ensures
            r == (match self {
                ExplosionKind::Small => 2000int,
                ExplosionKind::Large => 1000int,
            }),
    {
        match self {
            ExplosionKind::Small => 2000,
            ExplosionKind::Large => 1000,
        }
    }
}

/// An event the host consumes at the end of a tick, in outbox order.
#[derive(Clone, Copy, Debug, PartialEq, Eq, Structural)]
pub enum GameEvent {
    /// An explosion happened: position, visual style and size class.
    Explosion { position: Vec3, tint: Tint, kind: ExplosionKind },
    /// A bullet was fired by the faction this tint stands for.
    ShotFired { tint: Tint },
    /// An orbit-progress milestone is due: the percentage to flash,
    /// and where (next to the home planet).
    Milestone { percent: i64, position: Vec3 },
    /// The run ended: the home planet survived its full orbit.
    Won,
    /// The run ended: the home planet was destroyed.
    Lost,
}

/// Volume after halving once per earlier explosion in the same tick.
pub open spec fn spec_halved(base: int, n: nat) -> int
    decreases n,
{
    if n == 0 {
        base
    } else {
        spec_halved(base, (n - 1) as nat) / 2
    }
}

/// Volume (thousandths) of the `index`-th explosion of a tick: each one
/// plays at half the volume of the one before it.
pub fn explosion_volume_milli(kind: ExplosionKind, index: usize) -> (r: i64)
    ensures
        r == spec_halved(kind.spec_volume_milli(), index as nat),
        0 <= r <= kind.spec_volume_milli(),
{
    let base = kind.volume_milli();
    let mut v = base;
    let mut i: usize = 0;
    proof {
        lemma_halved_bounds(base as int, index as nat);
    }
    while i < index
        invariant
            0 <= i <= index,
            v == spec_halved(base as int, i as nat),
            0 <= v <= base,
            0 <= base <= 2000,
        decreases index - i,
    {
        proof {
            lemma_halved_bounds(base as int, (i + 1) as nat);
        }
        v = v / 2;
        i = i + 1;
    }
    v
}

/// Halving keeps a nonnegative base within its starting bound.
proof fn lemma_halved_bounds(base: int, n: nat)
    requires
        base >= 0,
    ensures
        0 <= spec_halved(base, n) <= base,
    decreases n,
{
    if n > 0 {
        lemma_halved_bounds(base, (n - 1) as nat);
    }
}

/// Direction angle of the `i`-th of `count` particles: an even fan over
/// the full turn.
pub open spec fn spec_particle_angle(i: int, count: int) -> int {
    i * (ANGLE_TAU as int) / count
}

/// Initial velocity of the `i`-th particle of an explosion.
pub open spec fn spec_particle_velocity(kind: ExplosionKind, i: int) -> Vec3 {
    let a = spec_particle_angle(i, kind.spec_particle_count());
    let speed = kind.spec_initial_speed();
    Vec3 {
        x: spec_mul_div(spec_cos(a), speed, TRIG_ONE as int) as i64,
        y: spec_mul_div(spec_sin(a), speed, TRIG_ONE as int) as i64,
        z: 0 as i64,
    }
}

/// Compute the `i`-th particle's initial velocity.
pub fn particle_velocity(kind: ExplosionKind, i: usize) -> (r: Vec3)
    requires
        i < kind.spec_particle_count(),
    ensures
        r == spec_particle_velocity(kind, i as int),
        r.wf(),
{
    let count = kind.particle_count();
    let a = (i as i64) * ANGLE_TAU / (count as i64);
    proof {
        assert(0 <= (i as int) * (ANGLE_TAU as int) < 12 * (ANGLE_TAU as int))
            by (nonlinear_arith)
            requires
                0 <= i < 12,
                ANGLE_TAU == 6284,
        ;
        assert(0 <= (i as int) * (ANGLE_TAU as int) / (count as int) < ANGLE_TAU)
            by (nonlinear_arith)
            requires
                0 <= (i as int) * (ANGLE_TAU as int),
                (i as int) < count,
                count > 0,
                ANGLE_TAU == 6284,
                (i as int) * (ANGLE_TAU as int) < count * (ANGLE_TAU as int),
        ;
        assert((i as int) * (ANGLE_TAU as int) < count * (ANGLE_TAU as int)) by (nonlinear_arith)
            requires
                0 <= (i as int) < count,
                ANGLE_TAU == 6284,
        ;
    }
    let speed = kind.initial_speed();
    let c = cos_units(a);
    let s = sin_units(a);
    proof {
        crate::vec3::lemma_mul_le(crate::fixed::abs_i(c as int), speed as int, 10_000, 64_000);
        crate::vec3::lemma_mul_le(crate::fixed::abs_i(s as int), speed as int, 10_000, 64_000);
        crate::fixed::lemma_mul_div_bounds(c as int, speed as int, TRIG_ONE as int);
        crate::fixed::lemma_mul_div_bounds(s as int, speed as int, TRIG_ONE as int);
    }
    Vec3 { x: mul_div(c, speed, TRIG_ONE), y: mul_div(s, speed, TRIG_ONE), z: 0 }
}

} // verus!
