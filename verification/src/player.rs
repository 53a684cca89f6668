//! Player input translation, death detection and respawn.
//!
//! The player dies when health runs out or the ship overlaps a planet
//! or the star. Death is not a terminal game state: the ship respawns
//! at a rejection-sampled point of the map and the run continues.
//!
//! Respawn sampling: candidates are drawn from the 500-unit square,
//! rejected outside the 500-unit disk, and rejected when their squared
//! distance to any celestial body is at most `RESPAWN_EXCLUSION_SQ`.
//! Following the original tuning, the exclusion threshold is 70 square
//! units (about 8.4 units of true distance), not 70 units. Sampling is
//! bounded: after `RESPAWN_TRIES` rejected draws the player respawns in
//! place, which no finite run of the game reaches in practice.

use vstd::prelude::*;

use crate::bullet::Obstacle;
use crate::enemy::{ship_hits_any_body, spec_ship_overlaps};
use crate::fixed::{spec_decay, MICRO, WORLD_LIM};
use crate::game_state::GameState;
use crate::health::{Health, HEALTH_LIM};
use crate::kinematics::valid_dt;
use crate::rng::rand_in_range;
use crate::ship::{SpaceShip, Steering};
use crate::vec3::Vec3;

verus! {

/// Radius of the respawn disk, in milli-units.
pub const RESPAWN_DISK: i64 = 500_000;

/// Squared-distance exclusion around celestial bodies for respawn
/// candidates, in square milli-units (70 square units).
pub const RESPAWN_EXCLUSION_SQ: i64 = 70_000_000;

/// Bound on rejection-sampling draws per respawn.
pub const RESPAWN_TRIES: usize = 1000;

/// Scale the player grows in from after a respawn (thousandths).
pub const RESPAWN_SCALE_MILLI: i64 = 5000;

/// Per-millisecond decay of the grow-in scale animation (scale `MICRO`):
/// `0.95` per sixtieth of a second.
pub const SCALE_DECAY_PER_MS: i64 = 996_928;

/// One tick of the player's input commands, as the host's input layer
/// translated them. `fire` is edge-triggered: true only on the tick the
/// fire key went down.
#[derive(Clone, Copy, Debug, PartialEq, Eq, Structural)]
pub struct PlayerInput {
    pub left: bool,
    pub right: bool,
    pub throttle: bool,
    pub brake: bool,
    pub fire: bool,
}

impl PlayerInput {
    /// No keys held.
    pub fn idle() -> (r: PlayerInput)
        ensures
            r == (PlayerInput {
                left: false,
                right: false,
                throttle: false,
                brake: false,
                fire: false,
            }),
    {
        PlayerInput { left: false, right: false, throttle: false, brake: false, fire: false }
    }
}

/// The ship commands the input dictates while the game runs: opposite
/// steering keys cancel, and firing requests one bullet of the level's
/// player damage. Once the game is lost, control is taken away and the
/// ship only brakes.
pub open spec fn spec_apply_input(
    ship: SpaceShip,
    input: PlayerInput,
    state: GameState,
    player_damage: int,
) -> SpaceShip {
    match state {
        GameState::Running | GameState::GameWon => SpaceShip {
            steering: if input.left && !input.right {
                Steering::Left
            } else if input.right && !input.left {
                Steering::Right
            } else {
                Steering::Straight
            },
            throttle: input.throttle,
            brake: input.brake,
            shoot: if input.fire {
                Some(player_damage as i64)
            } else {
                None
            },
            ..ship
        },
        GameState::GameOver => SpaceShip {
            steering: Steering::Straight,
            throttle: false,
            brake: true,
            shoot: None,
            ..ship
        },
    }
}

/// Translate held keys into ship commands.
pub fn apply_input(ship: &mut SpaceShip, input: PlayerInput, state: GameState, player_damage: i64)
    requires
        old(ship).wf(),
        0 <= player_damage <= HEALTH_LIM,
    ensures
        *final(ship) == spec_apply_input(*old(ship), input, state, player_damage as int),
        final(ship).wf(),
        final(ship).rotation == old(ship).rotation,
        state == GameState::GameOver ==> final(ship).shoot is None,
{
    match state {
        GameState::Running | GameState::GameWon => {
            ship.steering = if input.left && !input.right {
                Steering::Left
            } else if input.right && !input.left {
                Steering::Right
            } else {
                Steering::Straight
            };
            ship.throttle = input.throttle;
            ship.brake = input.brake;
            ship.shoot = if input.fire {
                Some(player_damage)
            } else {
                None
            };
        },
        GameState::GameOver => {
            ship.steering = Steering::Straight;
            ship.throttle = false;
            ship.brake = true;
            ship.shoot = None;
        },
    }
}

/// The grow-in scale after one tick: exponential approach toward 1.0,
/// shrinking by the blend weight of what still separates it from 1.0.
pub open spec fn spec_scale_step(scale_milli: int, dt_ms: int) -> int {
    let alpha = (MICRO as int) - spec_decay(SCALE_DECAY_PER_MS as int, dt_ms as nat);
    scale_milli - (scale_milli - 1000) * alpha / (MICRO as int)
}

/// Animate the respawn grow-in: the scale approaches 1.0 but never
/// overshoots it.
pub fn update_scale(scale_milli: i64, dt_ms: i64) -> (r: i64)
    requires
        1000 <= scale_milli <= RESPAWN_SCALE_MILLI,
        valid_dt(dt_ms as int),
    ensures
        r == spec_scale_step(scale_milli as int, dt_ms as int),
        1000 <= r <= scale_milli,
{
    let alpha = MICRO - crate::fixed::decay_pow(SCALE_DECAY_PER_MS, dt_ms);
    let gap = scale_milli - 1000;
    proof {
        assert(0 <= (gap as int) * (alpha as int) <= 4000 * 1_000_000) by (nonlinear_arith)
            requires
                0 <= gap <= 4000,
                0 <= alpha <= 1_000_000,
        ;
        assert((gap as int) * (alpha as int) <= (gap as int) * 1_000_000) by (nonlinear_arith)
            requires
                0 <= gap,
                0 <= alpha <= 1_000_000,
        ;
        assert(0 <= (gap as int) * (alpha as int) / 1_000_000 <= gap) by (nonlinear_arith)
            requires
                0 <= (gap as int) * (alpha as int) <= (gap as int) * 1_000_000,
                0 <= gap,
        ;
    }
    scale_milli - gap * alpha / MICRO
}

/// A respawn candidate is acceptable: inside the disk and clear of
/// every celestial body by more than the exclusion threshold.
pub open spec fn spec_respawn_ok(p: Vec3, bodies: Seq<Obstacle>) -> bool {
    &&& p.spec_norm_sq() <= RESPAWN_DISK * RESPAWN_DISK
    &&& forall|j: int|
        0 <= j < bodies.len() ==> p.spec_sub((#[trigger] bodies[j]).position).spec_norm_sq()
            > RESPAWN_EXCLUSION_SQ
}

/// Test a respawn candidate against the disk and the exclusion zones.
pub fn respawn_ok(p: &Vec3, bodies: &Vec<Obstacle>) -> (r: bool)
    requires
        p.wf(),
        forall|j: int| 0 <= j < bodies@.len() ==> (#[trigger] bodies@[j]).wf(),
    ensures
        r == spec_respawn_ok(*p, bodies@),
{
    proof {
        crate::fixed::lemma_rescale_cap_sq(RESPAWN_DISK as int);
    }
    if p.norm_sq() > RESPAWN_DISK * RESPAWN_DISK {
        return false;
    }
    let mut i: usize = 0;
    while i < bodies.len()
        invariant
            0 <= i <= bodies@.len(),
            p.wf(),
            forall|j: int| 0 <= j < bodies@.len() ==> (#[trigger] bodies@[j]).wf(),
            forall|j: int|
                0 <= j < i ==> p.spec_sub((#[trigger] bodies@[j]).position).spec_norm_sq()
                    > RESPAWN_EXCLUSION_SQ,
        decreases bodies@.len() - i,
    {
        proof {
            assert(bodies@[i as int].wf());
        }
        let d2 = p.dist_sq(&bodies[i].position);
        if d2 <= RESPAWN_EXCLUSION_SQ {
            return false;
        }
        i = i + 1;
    }
    true
}

/// One random respawn candidate: a point of the 500-unit square at
/// height zero.
pub fn random_respawn_candidate() -> (r: Vec3)
    ensures
        r.wf(),
        r.bounded_by(RESPAWN_DISK as int),
        r.z == 0,
{
    let x = rand_in_range(-RESPAWN_DISK, RESPAWN_DISK + 1);
    let y = rand_in_range(-RESPAWN_DISK, RESPAWN_DISK + 1);
    Vec3 { x, y, z: 0 }
}

/// Rejection sampling for a respawn point, bounded by `tries` draws.
/// Whatever the generator returns, a point is handed back only if it
/// satisfies the respawn constraints; `None` means every draw was
/// rejected.
pub fn find_respawn_point(bodies: &Vec<Obstacle>, tries: usize) -> (r: Option<Vec3>)
    requires
        forall|j: int| 0 <= j < bodies@.len() ==> (#[trigger] bodies@[j]).wf(),
    ensures
        r matches Some(p) ==> (spec_respawn_ok(p, bodies@) && p.wf()),
{
    let mut i: usize = 0;
    while i < tries
        invariant
            forall|j: int| 0 <= j < bodies@.len() ==> (#[trigger] bodies@[j]).wf(),
        decreases tries - i,
    {
        let candidate = random_respawn_candidate();
        if respawn_ok(&candidate, bodies) {
            return Some(candidate);
        }
        i = i + 1;
    }
    None
}

/// First acceptable candidate of a supplied sequence (deterministic
/// form of the rejection sampling, for hosts that bring their own
/// generator).
pub fn find_respawn_from(candidates: &Vec<Vec3>, bodies: &Vec<Obstacle>) -> (r: Option<Vec3>)
    requires
        forall|j: int| 0 <= j < candidates@.len() ==> (#[trigger] candidates@[j]).wf(),
        forall|j: int| 0 <= j < bodies@.len() ==> (#[trigger] bodies@[j]).wf(),
    ensures
        match r {
            Some(p) => {
                &&& spec_respawn_ok(p, bodies@)
                &&& exists|i: int| 0 <= i < candidates@.len() && candidates@[i] == p
            },
            None => forall|i: int|
                0 <= i < candidates@.len() ==> !spec_respawn_ok(#[trigger] candidates@[i], bodies@),
        },
{
    let mut i: usize = 0;
    while i < candidates.len()
        invariant
            0 <= i <= candidates@.len(),
            forall|j: int| 0 <= j < candidates@.len() ==> (#[trigger] candidates@[j]).wf(),
            forall|j: int| 0 <= j < bodies@.len() ==> (#[trigger] bodies@[j]).wf(),
            forall|j: int| 0 <= j < i ==> !spec_respawn_ok(#[trigger] candidates@[j], bodies@),
        decreases candidates@.len() - i,
    {
        proof {
            assert(candidates@[i as int].wf());
        }
        let c = candidates[i];
        if respawn_ok(&c, bodies) {
            return Some(c);
        }
        i = i + 1;
    }
    None
}

/// The player is dead: out of health, or overlapping a celestial body.
pub fn player_dead(health: &Health, pos: &Vec3, radius: i64, bodies: &Vec<Obstacle>) -> (r: bool)
    requires
        pos.wf(),
        0 <= radius <= WORLD_LIM,
        forall|j: int| 0 <= j < bodies@.len() ==> (#[trigger] bodies@[j]).wf(),
    ensures
        r == (health.spec_current() <= 0 || exists|j: int|
            0 <= j < bodies@.len() && spec_ship_overlaps(*pos, radius as int, #[trigger] bodies@[j])),
{
    if health.current() <= 0 {
        true
    } else {
        ship_hits_any_body(pos, radius, bodies)
    }
}

} // verus!
