//! The whole simulation state and its per-tick update.
//!
//! One `tick` advances the world by `dt` milliseconds in a fixed phase
//! order (the scheduling contract of the simulation):
//!
//! 1. spawn cadence, enemy AI and player input set ship commands, and
//!    the ship state machines fire pending bullets;
//! 2. scripted orbits advance, gravity updates every mover's velocity,
//!    then kinematics caps speeds and integrates positions — so
//!    collisions are checked against this tick's final positions;
//! 3. bullets count down, home and hit; ships overlapping celestial
//!    bodies die; the player respawns; every despawn decided this tick
//!    is applied within it;
//! 4. the win/lose check runs, then the cosmetic timers.
//!
//! Entities never linger: a bullet, enemy or explosion removed by a
//! rule is gone before the tick ends. The event outbox is cleared at
//! the start of each tick and filled in order.

use vstd::prelude::*;

use crate::bullet::{scan_hit, update_flight, Bullet, Obstacle};
use crate::collider::{GROUP_CELESTIAL, GROUP_ENEMY, GROUP_PLAYER};
use crate::enemy::{
    ai_commands, final_wave_due, resolve_target, ship_hits_any_body, spawn_placement,
    target_params, Enemy, EnemySpawner, EnemyTarget, ELAPSED_LIM,
};
use crate::events::{particle_velocity, ExplosionKind, GameEvent, Tint};
use crate::fixed::WORLD_LIM;
use crate::game_state::{check_end, spec_check_end, GameState, HomeLaser, HOME_LASER_MS};
use crate::gravity::{gravity_kick, valid_body, DEFAULT_GRAVITY_MULTIPLIER};
use crate::health::Health;
use crate::kinematics::{apply_velocity, valid_dt, MAP_RADIUS};
use crate::level::Level;
use crate::planet::Planet;
use crate::player::{
    apply_input, find_respawn_point, player_dead, update_scale, PlayerInput, RESPAWN_SCALE_MILLI,
    RESPAWN_TRIES,
};
use crate::rng::rand_in_range;
use crate::ship::{
    update_space_ship, BulletSpawn, SpaceShip, BULLET_GRAVITY_MULT, SHIP_MAX_SPEED, SHIP_RADIUS,
};
use crate::trig::ANGLE_TAU;
use crate::vec3::Vec3;

verus! {

/// A celestial body: the star (no orbit) or a planet. Bodies are never
/// removed from the world; the destroyed home planet is marked dead.
#[derive(Clone, Copy, Debug)]
pub struct Body {
    pub position: Vec3,
    /// Collider radius, milli-units.
    pub radius: i64,
    /// Mass, milli mass units.
    pub mass: i64,
    /// The scripted orbit; the star has none and stands at the origin.
    pub orbit: Option<Planet>,
    /// The tagged home planet, whose survival the run is about.
    pub is_home: bool,
    /// False once the body has been destroyed and despawned.
    pub alive: bool,
    /// Only the home planet carries health.
    pub health: Option<Health>,
}

impl Body {
    pub open spec fn wf(self) -> bool {
        &&& self.position.wf()
        &&& 0 <= self.radius <= WORLD_LIM
        &&& valid_body(self.mass as int)
        &&& match self.orbit {
            Some(p) => p.wf(),
            None => true,
        }
        &&& match self.health {
            Some(h) => h.wf(),
            None => true,
        }
        &&& self.is_home ==> self.health is Some
    }
}

/// The player's ship and its per-run state.
#[derive(Clone, Copy, Debug)]
pub struct PlayerState {
    pub ship: SpaceShip,
    pub health: Health,
    pub position: Vec3,
    pub velocity: Vec3,
    /// Sprite scale (thousandths): oversized right after a respawn,
    /// animated back to 1.0.
    pub scale_milli: i64,
}

impl PlayerState {
    pub open spec fn wf(self) -> bool {
        &&& self.ship.wf()
        &&& self.health.wf()
        &&& self.position.wf()
        &&& self.velocity.wf()
        &&& 1000 <= self.scale_milli <= RESPAWN_SCALE_MILLI
    }
}

/// One enemy: AI state composed onto a ship with health.
#[derive(Clone, Copy, Debug)]
pub struct EnemyState {
    pub enemy: Enemy,
    pub ship: SpaceShip,
    pub health: Health,
    pub position: Vec3,
    pub velocity: Vec3,
}

impl EnemyState {
    pub open spec fn wf(self) -> bool {
        &&& self.enemy.wf()
        &&& self.ship.wf()
        &&& self.health.wf()
        &&& self.position.wf()
        &&& self.velocity.wf()
    }
}

/// One explosion particle, moved by gravity and kinematics like any
/// other massless mover.
#[derive(Clone, Copy, Debug)]
pub struct Particle {
    pub position: Vec3,
    pub velocity: Vec3,
}

impl Particle {
    pub open spec fn wf(self) -> bool {
        self.position.wf() && self.velocity.wf()
    }
}

/// A live explosion: its particles and the countdown after which the
/// whole effect despawns.
#[derive(Clone, Debug)]
pub struct ExplosionState {
    pub ttl_ms: i64,
    pub kind: ExplosionKind,
    pub tint: Tint,
    pub particles: Vec<Particle>,
}

impl ExplosionState {
    pub open spec fn wf(self) -> bool {
        &&& -1000 <= self.ttl_ms <= 1000
        &&& forall|j: int| 0 <= j < self.particles@.len() ==> (#[trigger] self.particles@[j]).wf()
    }
}

/// The whole simulation state between two ticks.
pub struct World {
    pub level: Level,
    pub state: GameState,
    pub bodies: Vec<Body>,
    pub player: PlayerState,
    pub enemies: Vec<EnemyState>,
    pub bullets: Vec<Bullet>,
    pub explosions: Vec<ExplosionState>,
    pub spawner: EnemySpawner,
    pub laser: HomeLaser,
    /// Next orbit percentage to flash next to the home planet.
    pub next_milestone_percent: i64,
    /// The in-game clock, in milliseconds, saturating at `ELAPSED_LIM`.
    pub elapsed_ms: i64,
    /// The per-tick outbox, cleared and refilled by each tick.
    pub events: Vec<GameEvent>,
}

impl World {
    /// Structural well-formedness: every entity's invariant holds.
    pub open spec fn wf(self) -> bool {
        &&& self.level.wf()
        &&& forall|j: int| 0 <= j < self.bodies@.len() ==> (#[trigger] self.bodies@[j]).wf()
        &&& self.player.wf()
        &&& forall|j: int| 0 <= j < self.enemies@.len() ==> (#[trigger] self.enemies@[j]).wf()
        &&& forall|j: int| 0 <= j < self.bullets@.len() ==> (#[trigger] self.bullets@[j]).wf()
        &&& forall|j: int| 0 <= j < self.explosions@.len() ==> (#[trigger] self.explosions@[j]).wf()
        &&& self.spawner.wf()
        &&& self.laser.wf()
        &&& 0 <= self.next_milestone_percent <= 200
        &&& 0 <= self.elapsed_ms <= ELAPSED_LIM
        &&& self.bullets_live()
    }

    /// Bullets stored between ticks are always live: expired ones are
    /// removed within the tick that expires them.
    pub open spec fn bullets_live(self) -> bool {
        forall|j: int|
            0 <= j < self.bullets@.len() ==> 0 < (#[trigger] self.bullets@[j]).time_to_live_ms
                <= crate::ship::BULLET_TTL_MS
    }

    /// The speed-cap invariant at rest: between ticks, every ship's
    /// squared speed is within the ship cap.
    pub open spec fn ships_capped(self) -> bool {
        &&& self.player.velocity.spec_norm_sq() <= SHIP_MAX_SPEED * SHIP_MAX_SPEED
        &&& forall|j: int|
            0 <= j < self.enemies@.len() ==> (#[trigger] self.enemies@[j]).velocity.spec_norm_sq()
                <= SHIP_MAX_SPEED * SHIP_MAX_SPEED
    }

    /// Index of the home planet: the first body tagged as home.
    pub open spec fn spec_home_idx(bodies: Seq<Body>) -> Option<int> {
        spec_first_home(bodies, 0)
    }

    /// A fresh run: the player ship, the star and three planets, the
    /// middle one the home planet carrying the level's home health.
    pub fn new(level: &Level) -> (r: World)
        requires
            level.wf(),
        ensures
            r.wf(),
            r.ships_capped(),
            r.state == GameState::Running,
            r.level == *level,
            r.enemies@.len() == 0,
            r.bullets@.len() == 0,
            r.elapsed_ms == 0,
            r.bodies@.len() == 4,
            Self::spec_home_idx(r.bodies@) == Some(2int),
            r.bodies@[2].orbit matches Some(p) ==> (p.orbit_time_ms == level.home_orbit_time_ms
                && p.orbit_progress_micro == 0),
            r.bodies@[2].orbit is Some,
            r.bodies@[2].health matches Some(h) ==> (h.spec_max() == level.home_health
                && h.spec_current() == level.home_health),
            r.player.health.spec_max() == level.player_health,
            r.player.health.spec_current() == level.player_health,
    {
        let mut bodies: Vec<Body> = Vec::new();
        // The star: massive, unmoving, at the origin.
        bodies.push(
            Body {
                position: Vec3::zero(),
                radius: 16_000,
                mass: 200_000_000,
                orbit: None,
                is_home: false,
                alive: true,
                health: None,
            },
        );
        // Inner planet: half the home orbit period.
        let inner = Planet::new(150_000, half_or_one(level.home_orbit_time_ms), 500_000);
        bodies.push(
            Body {
                position: inner.position(),
                radius: 8_000,
                mass: 100_000_000,
                orbit: Some(inner),
                is_home: false,
                alive: true,
                health: None,
            },
        );
        // The home planet: its full orbit is the win timer.
        let home = Planet::new(300_000, level.home_orbit_time_ms, 0);
        bodies.push(
            Body {
                position: home.position(),
                radius: 8_000,
                mass: 100_000_000,
                orbit: Some(home),
                is_home: true,
                alive: true,
                health: Some(level.new_home_health()),
            },
        );
        // Outer planet: twice the home orbit period.
        let outer = Planet::new(450_000, double_capped(level.home_orbit_time_ms), 800_000);
        bodies.push(
            Body {
                position: outer.position(),
                radius: 8_000,
                mass: 100_000_000,
                orbit: Some(outer),
                is_home: false,
                alive: true,
                health: None,
            },
        );
        proof {
            assert(spec_first_home(bodies@, 2) == Some(2int));
            assert(spec_first_home(bodies@, 1) == Some(2int));
            assert(spec_first_home(bodies@, 0) == Some(2int));
        }
        let player = PlayerState {
            ship: SpaceShip::new(0),
            health: level.new_player_health(),
            position: Vec3::new(-300_000, 200_000, 0),
            velocity: Vec3::zero(),
            scale_milli: 1000,
        };
        World {
            level: *level,
            state: GameState::Running,
            bodies,
            player,
            enemies: Vec::new(),
            bullets: Vec::new(),
            explosions: Vec::new(),
            spawner: EnemySpawner::new(level.enemy_spawn_interval_ms),
            laser: HomeLaser::new(),
            next_milestone_percent: 25,
            elapsed_ms: 0,
            events: Vec::new(),
        }
    }
}

impl World {
    /// Ships' positions at rest are inside the map circle.
    pub open spec fn ships_in_map(self) -> bool {
        &&& self.player.position.spec_norm_sq() <= MAP_RADIUS * MAP_RADIUS
        &&& forall|j: int|
            0 <= j < self.enemies@.len() ==> (#[trigger] self.enemies@[j]).position.spec_norm_sq()
                <= MAP_RADIUS * MAP_RADIUS
    }

    /// Find the home planet.
    pub fn find_home(&self) -> (r: Option<usize>)
        ensures
            match r {
                Some(i) => {
                    &&& Self::spec_home_idx(self.bodies@) == Some(i as int)
                    &&& i < self.bodies@.len()
                    &&& self.bodies@[i as int].is_home
                },
                None => Self::spec_home_idx(self.bodies@) is None,
            },
    {
        let mut i: usize = 0;
        while i < self.bodies.len()
            invariant
                0 <= i <= self.bodies@.len(),
                spec_first_home(self.bodies@, 0) == spec_first_home(self.bodies@, i as int),
            decreases self.bodies@.len() - i,
        {
            if self.bodies[i].is_home {
                return Some(i);
            }
            i = i + 1;
        }
        None
    }

    /// The alive celestial bodies as obstacles (collider group: the
    /// celestial bit), in body order.
    pub fn body_obstacles(&self) -> (r: Vec<Obstacle>)
        requires
            self.wf(),
        ensures
            r@ == spec_alive_obstacles(self.bodies@),
            forall|j: int| 0 <= j < r@.len() ==> (#[trigger] r@[j]).wf(),
    {
        let mut obs: Vec<Obstacle> = Vec::new();
        let mut i: usize = 0;
        proof {
            assert(self.bodies@.subrange(0, 0) =~= Seq::<Body>::empty());
        }
        while i < self.bodies.len()
            invariant
                self.wf(),
                0 <= i <= self.bodies@.len(),
                obs@ == spec_alive_obstacles(self.bodies@.subrange(0, i as int)),
                forall|j: int| 0 <= j < obs@.len() ==> (#[trigger] obs@[j]).wf(),
            decreases self.bodies@.len() - i,
        {
            let b = &self.bodies[i];
            proof {
                assert(self.bodies@[i as int].wf());
                assert(self.bodies@.subrange(0, i + 1).drop_last() =~= self.bodies@.subrange(
                    0,
                    i as int,
                ));
                assert(self.bodies@.subrange(0, i + 1).last() == self.bodies@[i as int]);
            }
            if b.alive {
                obs.push(Obstacle { position: b.position, radius: b.radius, group: GROUP_CELESTIAL });
            }
            i = i + 1;
        }
        proof {
            assert(self.bodies@.subrange(0, self.bodies@.len() as int) =~= self.bodies@);
        }
        obs
    }

    /// Add one freshly spawned enemy on the map-radius ring, at a
    /// random angle, heading tangentially, motionless, unhurt, with the
    /// level's enemy health and the given damage multiplier.
    fn spawn_enemy(&mut self, damage_multiplier_milli: i64) -> (fresh: EnemyState)
        requires
            old(self).wf(),
            0 <= damage_multiplier_milli <= 1000,
        ensures
            final(self).wf(),
            final(self).enemies@ == old(self).enemies@.push(fresh),
            spec_is_fresh_spawn(fresh, old(self).level, damage_multiplier_milli as int),
            fresh.velocity.spec_norm_sq() == 0,
            *final(self) == (World { enemies: final(self).enemies, ..*old(self) }),
    {
        let angle = rand_in_range(0, ANGLE_TAU);
        let (pos, rot) = spawn_placement(angle);
        proof {
            crate::trig::lemma_angle_mod_small(rot as int);
        }
        let fresh = EnemyState {
            enemy: Enemy::new(damage_multiplier_milli),
            ship: SpaceShip::new(rot),
            health: self.level.new_enemy_health(),
            position: pos,
            velocity: Vec3::zero(),
        };
        self.enemies.push(fresh);
        proof {
            assert(spec_fresh_enemy_at(
                fresh,
                old(self).level,
                angle as int,
                damage_multiplier_milli as int,
            ));
        }
        fresh
    }

    /// Spawn cadence (only while the game runs, and only while a home
    /// planet exists): the repeating timer yields one regular enemy per
    /// firing, and the one-time final wave of six harmless distractors
    /// arrives when less than a second of the home orbit remains.
    pub fn phase_spawn(&mut self, dt_ms: i64)
        requires
            old(self).wf(),
            valid_dt(dt_ms as int),
        ensures
            final(self).wf(),
            old(self).ships_capped() ==> final(self).ships_capped(),
            spec_phase_spawn_rel(*old(self), *final(self), dt_ms as int),
    {
        if self.state != GameState::Running {
            return ;
        }
        let home = self.find_home();
        let hi = match home {
            Some(hi) => hi,
            None => {
                return ;
            },
        };
        let interval = self.level.enemy_spawn_interval_ms;
        let fired = self.spawner.tick(dt_ms, interval);
        proof {
            crate::fixed::lemma_rescale_cap_sq(SHIP_MAX_SPEED as int);
        }
        if fired {
            let _ = self.spawn_enemy(1000);
        }
        let ghost base = old(self).enemies@.len() as int;
        let ghost n1 = self.enemies@.len() as int;
        if !self.spawner.spawned_final_wave {
            proof {
                assert(self.bodies@[hi as int].wf());
            }
            let due = match &self.bodies[hi].orbit {
                Some(p) => final_wave_due(p.orbit_progress_micro, p.orbit_time_ms),
                None => false,
            };
            if due {
                self.spawner.spawned_final_wave = true;
                let ghost w1 = *self;
                let mut k: usize = 0;
                while k < 6
                    invariant
                        self.wf(),
                        0 <= k <= 6,
                        0 <= n1 == w1.enemies@.len(),
                        self.enemies@.len() == n1 + k,
                        forall|j: int| 0 <= j < n1 ==> #[trigger] self.enemies@[j] == w1.enemies@[j],
                        forall|j: int|
                            n1 <= j < n1 + k ==> spec_is_fresh_spawn(
                                #[trigger] self.enemies@[j],
                                w1.level,
                                0,
                            ),
                        old(self).ships_capped() && w1.ships_capped() ==> self.ships_capped(),
                        *self == (World { enemies: self.enemies, ..w1 }),
                    decreases 6 - k,
                {
                    proof {
                        crate::fixed::lemma_rescale_cap_sq(SHIP_MAX_SPEED as int);
                    }
                    let ghost prev = *self;
                    let fresh = self.spawn_enemy(0);
                    proof {
                        assert forall|j: int| n1 <= j < n1 + k + 1 implies spec_is_fresh_spawn(
                            #[trigger] self.enemies@[j],
                            w1.level,
                            0,
                        ) by {
                            assert(self.enemies@ == prev.enemies@.push(fresh));
                            if j == n1 + k {
                                assert(self.enemies@[j] == fresh);
                            } else {
                                assert(self.enemies@[j] == prev.enemies@[j]);
                                assert(spec_is_fresh_spawn(prev.enemies@[j], w1.level, 0));
                            }
                        }
                    }
                    k = k + 1;
                }
            }
        }
    }
}

impl World {
    /// Enemy AI decisions for every enemy: resolve (and cache) the
    /// target, then set steering, throttle, brake and the fire command.
    /// Without a home planet the AI stands down for the tick.
    pub fn phase_ai(&mut self)
        requires
            old(self).wf(),
        ensures
            final(self).wf(),
            old(self).ships_capped() ==> final(self).ships_capped(),
            spec_phase_ai_rel(*old(self), *final(self)),
    {
        let home = self.find_home();
        let hi = match home {
            Some(hi) => hi,
            None => {
                return ;
            },
        };
        proof {
            assert(self.bodies@[hi as int].wf());
        }
        let home_pos = self.bodies[hi].position;
        let player_pos = self.player.position;
        let mut i: usize = 0;
        while i < self.enemies.len()
            invariant
                self.wf(),
                Self::spec_home_idx(old(self).bodies@) == Some(hi as int),
                hi < old(self).bodies@.len(),
                home_pos == old(self).bodies@[hi as int].position,
                home_pos.wf(),
                player_pos == old(self).player.position,
                self.enemies@.len() == old(self).enemies@.len(),
                0 <= i <= self.enemies@.len(),
                forall|j: int|
                    0 <= j < i ==> spec_ai_stepped(
                        old(self).enemies@[j],
                        #[trigger] self.enemies@[j],
                        old(self).level,
                        old(self).player.position,
                        old(self).bodies@[hi as int].position,
                        hi as int,
                        old(self).elapsed_ms as int,
                    ),
                forall|j: int|
                    i <= j < self.enemies@.len() ==> #[trigger] self.enemies@[j] == old(
                        self,
                    ).enemies@[j],
                *self == (World { enemies: self.enemies, ..*old(self) }),
            decreases self.enemies@.len() - i,
        {
            proof {
                assert(self.enemies@[i as int].wf());
            }
            let ghost pre_e = self.enemies@[i as int];
            let mut e = self.enemies[i];
            let draw = rand_in_range(0, 1000);
            let d2p = e.position.dist_sq(&player_pos);
            let d2h = e.position.dist_sq(&home_pos);
            let target = resolve_target(
                &mut e.enemy,
                draw,
                self.level.enemy_force_to_home_prob_milli,
                d2p,
                d2h,
            );
            let params = target_params(target);
            let target_pos = match target {
                EnemyTarget::Player => player_pos,
                EnemyTarget::Home => home_pos,
            };
            let (steering, throttle, brake, fire) = ai_commands(
                &e.position,
                e.ship.rotation,
                &target_pos,
                params.0,
                params.1,
                params.2,
                params.3,
                self.elapsed_ms,
                e.enemy.last_shot_ms,
            );
            e.ship.steering = steering;
            e.ship.throttle = throttle;
            e.ship.brake = brake;
            if fire {
                proof {
                    crate::vec3::lemma_mul_le(
                        self.level.enemy_damage as int,
                        e.enemy.damage_multiplier_milli as int,
                        self.level.enemy_damage as int,
                        1000,
                    );
                    crate::vec3::lemma_scaled_le(
                        self.level.enemy_damage as int,
                        e.enemy.damage_multiplier_milli as int,
                        1000,
                        self.level.enemy_damage as int,
                    );
                }
                let damage = crate::fixed::mul_div(
                    self.level.enemy_damage,
                    e.enemy.damage_multiplier_milli,
                    1000,
                );
                e.ship.shoot = Some(damage);
                e.enemy.last_shot_ms = self.elapsed_ms;
            } else {
                e.ship.shoot = None;
            }
            e.ship.shoot_missile_lock = match target {
                EnemyTarget::Player => None,
                EnemyTarget::Home => Some(hi),
            };
            self.enemies.set(i, e);
            proof {
                assert(spec_ai_applied(
                    pre_e,
                    self.enemies@[i as int],
                    draw as int,
                    old(self).level,
                    old(self).player.position,
                    old(self).bodies@[hi as int].position,
                    hi as int,
                    old(self).elapsed_ms as int,
                ));
            }
            i = i + 1;
        }
    }
}

/// One enemy's AI outcome for one probability draw: the target the draw
/// and the distances dictate (unless one is already cached), and the
/// steering, throttle, brake, fire, missile-lock and reload bookkeeping
/// the decision functions dictate for it.
pub open spec fn spec_ai_applied(
    pre_e: EnemyState,
    post_e: EnemyState,
    draw: int,
    level: Level,
    player_pos: Vec3,
    home_pos: Vec3,
    hi: int,
    elapsed: int,
) -> bool {
    let d2p = pre_e.position.spec_sub(player_pos).spec_norm_sq();
    let d2h = pre_e.position.spec_sub(home_pos).spec_norm_sq();
    let t = match pre_e.enemy.target {
        Some(t0) => t0,
        None => crate::enemy::spec_choose_target(
            draw,
            level.enemy_force_to_home_prob_milli as int,
            d2p,
            d2h,
        ),
    };
    let params = crate::enemy::spec_target_params(t);
    let tpos = match t {
        EnemyTarget::Player => player_pos,
        EnemyTarget::Home => home_pos,
    };
    let cmds = crate::enemy::spec_ai_commands(
        pre_e.position,
        pre_e.ship.rotation as int,
        tpos,
        params.0 as int,
        params.1 as int,
        params.2 as int,
        params.3 as int,
        elapsed,
        pre_e.enemy.last_shot_ms as int,
    );
    let fire = cmds.3;
    post_e == (EnemyState {
        enemy: Enemy {
            target: Some(t),
            last_shot_ms: if fire {
                elapsed as i64
            } else {
                pre_e.enemy.last_shot_ms
            },
            ..pre_e.enemy
        },
        ship: SpaceShip {
            steering: cmds.0,
            throttle: cmds.1,
            brake: cmds.2,
            shoot: if fire {
                Some(
                    crate::fixed::spec_mul_div(
                        level.enemy_damage as int,
                        pre_e.enemy.damage_multiplier_milli as int,
                        1000,
                    ) as i64,
                )
            } else {
                None
            },
            shoot_missile_lock: if t == EnemyTarget::Home {
                Some(hi as usize)
            } else {
                None
            },
            ..pre_e.ship
        },
        ..pre_e
    })
}

/// One enemy's AI outcome for some draw.
pub open spec fn spec_ai_stepped(
    pre_e: EnemyState,
    post_e: EnemyState,
    level: Level,
    player_pos: Vec3,
    home_pos: Vec3,
    hi: int,
    elapsed: int,
) -> bool {
    exists|draw: int|
        0 <= draw < 1000 && spec_ai_applied(
            pre_e,
            post_e,
            draw,
            level,
            player_pos,
            home_pos,
            hi,
            elapsed,
        )
}

/// Everything one AI phase does: with a home planet, every enemy's
/// commands take one AI step against the player's and the home's
/// positions; without one, nothing.
pub open spec fn spec_phase_ai_rel(pre: World, post: World) -> bool {
    match World::spec_home_idx(pre.bodies@) {
        Some(hi) => {
            &&& post.enemies@.len() == pre.enemies@.len()
            &&& (forall|j: int|
                0 <= j < pre.enemies@.len() ==> spec_ai_stepped(
                    pre.enemies@[j],
                    #[trigger] post.enemies@[j],
                    pre.level,
                    pre.player.position,
                    pre.bodies@[hi].position,
                    hi,
                    pre.elapsed_ms as int,
                ))
            &&& post == (World { enemies: post.enemies, ..pre })
        },
        None => post == pre,
    }
}

impl World {
    /// Materialize a fired bullet into the world and announce the shot.
    fn add_bullet(&mut self, spawn: &BulletSpawn, bullet_tint: Tint, ship_tint: Tint)
        requires
            old(self).wf(),
            spawn.position.wf(),
            spawn.velocity.wf(),
            0 <= spawn.damage <= crate::health::HEALTH_LIM,
            0 < spawn.ttl_ms <= crate::ship::BULLET_TTL_MS,
        ensures
            final(self).wf(),
            final(self).bullets@ == old(self).bullets@.push(
                crate::bullet::spec_bullet_of(*spawn, bullet_tint),
            ),
            final(self).events@ == old(self).events@.push(GameEvent::ShotFired { tint: ship_tint }),
            *final(self) == (World {
                bullets: final(self).bullets,
                events: final(self).events,
                ..*old(self)
            }),
    {
        let b = Bullet::from_spawn(spawn, bullet_tint);
        self.bullets.push(b);
        self.events.push(GameEvent::ShotFired { tint: ship_tint });
    }

    /// Ship control for the player and every enemy: translate the
    /// player's held keys into commands (unless the game is lost, when
    /// the ship only brakes), animate the respawn grow-in, then run
    /// every ship's control state machine, spawning the bullets that
    /// pending fire commands request, with a shot event per bullet.
    pub fn phase_control(&mut self, input: PlayerInput, dt_ms: i64)
        requires
            old(self).wf(),
            valid_dt(dt_ms as int),
        ensures
            final(self).wf(),
            spec_phase_control_rel(*old(self), *final(self), input, dt_ms as int),
    {
        apply_input(&mut self.player.ship, input, self.state, self.level.player_damage);
        let new_scale = update_scale(self.player.scale_milli, dt_ms);
        self.player.scale_milli = new_scale;

        let mut pship = self.player.ship;
        let (pvel, pspawn) = update_space_ship(
            &mut pship,
            GROUP_PLAYER,
            &self.player.position,
            &self.player.velocity,
            dt_ms,
        );
        self.player.ship = pship;
        self.player.velocity = pvel;
        match pspawn {
            Some(spawn) => {
                self.add_bullet(&spawn, Tint::PlayerBullet, Tint::PlayerShip);
            },
            None => {},
        }
        let ghost base_bullets = self.bullets@;
        let ghost base_events = self.events@;

        proof {
            assert(old(self).enemies@.subrange(0, 0) =~= Seq::<EnemyState>::empty());
        }
        let mut i: usize = 0;
        while i < self.enemies.len()
            invariant
                self.wf(),
                valid_dt(dt_ms as int),
                self.player == spec_player_controlled(
                    old(self).player,
                    input,
                    old(self).state,
                    old(self).level,
                    dt_ms as int,
                ).0,
                base_bullets == old(self).bullets@ + spec_player_spawn_bullets(
                    old(self).player,
                    input,
                    old(self).state,
                    old(self).level,
                    dt_ms as int,
                ),
                base_events == old(self).events@ + spec_player_shot_events(
                    old(self).player,
                    input,
                    old(self).state,
                    old(self).level,
                    dt_ms as int,
                ),
                self.enemies@.len() == old(self).enemies@.len(),
                0 <= i <= self.enemies@.len(),
                forall|j: int|
                    0 <= j < i ==> #[trigger] self.enemies@[j] == spec_enemy_controlled(
                        old(self).enemies@[j],
                        dt_ms as int,
                    ).0,
                forall|j: int|
                    i <= j < self.enemies@.len() ==> #[trigger] self.enemies@[j] == old(
                        self,
                    ).enemies@[j],
                self.bullets@ == base_bullets + spec_enemy_spawn_bullets(
                    old(self).enemies@.subrange(0, i as int),
                    dt_ms as int,
                ),
                self.events@ == base_events + spec_enemy_shot_events(
                    old(self).enemies@.subrange(0, i as int),
                    dt_ms as int,
                ),
                *self == (World {
                    player: self.player,
                    enemies: self.enemies,
                    bullets: self.bullets,
                    events: self.events,
                    ..*old(self)
                }),
            decreases self.enemies@.len() - i,
        {
            proof {
                assert(self.enemies@[i as int].wf());
                assert(old(self).enemies@.subrange(0, i + 1).drop_last()
                    =~= old(self).enemies@.subrange(0, i as int));
                assert(old(self).enemies@.subrange(0, i + 1).last() == old(self).enemies@[i as int]);
            }
            let mut e = self.enemies[i];
            let mut eship = e.ship;
            let (evel, espawn) = update_space_ship(
                &mut eship,
                GROUP_ENEMY,
                &e.position,
                &e.velocity,
                dt_ms,
            );
            e.ship = eship;
            e.velocity = evel;
            self.enemies.set(i, e);
            match espawn {
                Some(spawn) => {
                    self.add_bullet(&spawn, Tint::EnemyBullet, Tint::EnemyShip);
                },
                None => {},
            }
            i = i + 1;
        }
        proof {
            assert(old(self).enemies@.subrange(0, old(self).enemies@.len() as int)
                =~= old(self).enemies@);
        }
    }
}

/// The player's state and fire command after one control tick: the
/// held keys become commands, the grow-in scale steps, and the ship
/// state machine runs.
pub open spec fn spec_player_controlled(
    p: PlayerState,
    input: PlayerInput,
    state: GameState,
    level: Level,
    dt: int,
) -> (PlayerState, Option<BulletSpawn>) {
    let ship1 = crate::player::spec_apply_input(p.ship, input, state, level.player_damage as int);
    let u = crate::ship::spec_update_ship(ship1, GROUP_PLAYER, p.position, p.velocity, dt);
    (
        PlayerState {
            ship: u.0,
            velocity: u.1,
            scale_milli: crate::player::spec_scale_step(p.scale_milli as int, dt) as i64,
            ..p
        },
        u.2,
    )
}

/// An enemy's state and fire command after one control tick.
pub open spec fn spec_enemy_controlled(e: EnemyState, dt: int) -> (EnemyState, Option<
    BulletSpawn,
>) {
    let u = crate::ship::spec_update_ship(e.ship, GROUP_ENEMY, e.position, e.velocity, dt);
    (EnemyState { ship: u.0, velocity: u.1, ..e }, u.2)
}

/// The bullet the player's control tick appends, if it fired.
pub open spec fn spec_player_spawn_bullets(
    p: PlayerState,
    input: PlayerInput,
    state: GameState,
    level: Level,
    dt: int,
) -> Seq<Bullet> {
    match spec_player_controlled(p, input, state, level, dt).1 {
        Some(sp) => seq![crate::bullet::spec_bullet_of(sp, Tint::PlayerBullet)],
        None => Seq::empty(),
    }
}

/// The shot event the player's control tick appends, if it fired.
pub open spec fn spec_player_shot_events(
    p: PlayerState,
    input: PlayerInput,
    state: GameState,
    level: Level,
    dt: int,
) -> Seq<GameEvent> {
    match spec_player_controlled(p, input, state, level, dt).1 {
        Some(_) => seq![GameEvent::ShotFired { tint: Tint::PlayerShip }],
        None => Seq::empty(),
    }
}

/// The bullets the enemies' control ticks append, in enemy order.
pub open spec fn spec_enemy_spawn_bullets(enemies: Seq<EnemyState>, dt: int) -> Seq<Bullet>
    decreases enemies.len(),
{
    if enemies.len() == 0 {
        Seq::empty()
    } else {
        spec_enemy_spawn_bullets(enemies.drop_last(), dt) + (match spec_enemy_controlled(
            enemies.last(),
            dt,
        ).1 {
            Some(sp) => seq![crate::bullet::spec_bullet_of(sp, Tint::EnemyBullet)],
            None => Seq::empty(),
        })
    }
}

/// The shot events the enemies' control ticks append, in enemy order.
pub open spec fn spec_enemy_shot_events(enemies: Seq<EnemyState>, dt: int) -> Seq<GameEvent>
    decreases enemies.len(),
{
    if enemies.len() == 0 {
        Seq::empty()
    } else {
        spec_enemy_shot_events(enemies.drop_last(), dt) + (match spec_enemy_controlled(
            enemies.last(),
            dt,
        ).1 {
            Some(_) => seq![GameEvent::ShotFired { tint: Tint::EnemyShip }],
            None => Seq::empty(),
        })
    }
}

/// Everything one control phase does: the player's and every enemy's
/// ship take exactly one input-and-update step, and exactly the bullets
/// their fire commands request are appended, each with its shot event,
/// the player's first; nothing else of the world changes.
pub open spec fn spec_phase_control_rel(pre: World, post: World, input: PlayerInput, dt: int)
    -> bool {
    &&& post.player == spec_player_controlled(pre.player, input, pre.state, pre.level, dt).0
    &&& post.enemies@.len() == pre.enemies@.len()
    &&& (forall|j: int|
        0 <= j < pre.enemies@.len() ==> #[trigger] post.enemies@[j] == spec_enemy_controlled(
            pre.enemies@[j],
            dt,
        ).0)
    &&& post.bullets@ == pre.bullets@ + spec_player_spawn_bullets(
        pre.player,
        input,
        pre.state,
        pre.level,
        dt,
    ) + spec_enemy_spawn_bullets(pre.enemies@, dt)
    &&& post.events@ == pre.events@ + spec_player_shot_events(
        pre.player,
        input,
        pre.state,
        pre.level,
        dt,
    ) + spec_enemy_shot_events(pre.enemies@, dt)
    &&& post == (World {
        player: post.player,
        enemies: post.enemies,
        bullets: post.bullets,
        events: post.events,
        ..pre
    })
}

/// What one orbit step does to one body: a planet advances its scripted
/// orbit and moves onto it; the star (no orbit) stands still.
pub open spec fn spec_body_orbit_step(b: Body, dt_ms: int) -> Body {
    match b.orbit {
        Some(p) => {
            let p1 = p.spec_advanced(dt_ms);
            Body { orbit: Some(p1), position: p1.spec_position(), ..b }
        },
        None => b,
    }
}

impl World {
    /// Advance every scripted orbit and move the planets onto them.
    pub fn phase_orbits(&mut self, dt_ms: i64)
        requires
            old(self).wf(),
            valid_dt(dt_ms as int),
        ensures
            final(self).wf(),
            spec_phase_orbits_rel(*old(self), *final(self), dt_ms as int),
    {
        let mut i: usize = 0;
        while i < self.bodies.len()
            invariant
                self.wf(),
                valid_dt(dt_ms as int),
                self.bodies@.len() == old(self).bodies@.len(),
                0 <= i <= self.bodies@.len(),
                forall|j: int|
                    0 <= j < i ==> self.bodies@[j] == spec_body_orbit_step(
                        #[trigger] old(self).bodies@[j],
                        dt_ms as int,
                    ),
                forall|j: int|
                    i <= j < self.bodies@.len() ==> self.bodies@[j] == #[trigger] old(
                        self,
                    ).bodies@[j],
                *self == (World { bodies: self.bodies, ..*old(self) }),
            decreases self.bodies@.len() - i,
        {
            proof {
                assert(self.bodies@[i as int].wf());
            }
            let mut b = self.bodies[i];
            match b.orbit {
                Some(p) => {
                    let mut p1 = p;
                    p1.advance(dt_ms);
                    b.orbit = Some(p1);
                    b.position = p1.position();
                    self.bodies.set(i, b);
                },
                None => {},
            }
            i = i + 1;
        }
    }

    /// The alive bodies' positions and masses, for the gravity field,
    /// in body order.
    fn collect_masses(&self) -> (r: Vec<(Vec3, i64)>)
        requires
            self.wf(),
        ensures
            r@ == spec_alive_masses(self.bodies@),
            forall|j: int|
                0 <= j < r@.len() ==> ((#[trigger] r@[j]).0.wf() && valid_body(r@[j].1 as int)),
    {
        let mut masses: Vec<(Vec3, i64)> = Vec::new();
        let mut i: usize = 0;
        proof {
            assert(self.bodies@.subrange(0, 0) =~= Seq::<Body>::empty());
        }
        while i < self.bodies.len()
            invariant
                self.wf(),
                0 <= i <= self.bodies@.len(),
                masses@ == spec_alive_masses(self.bodies@.subrange(0, i as int)),
                forall|j: int|
                    0 <= j < masses@.len() ==> ((#[trigger] masses@[j]).0.wf() && valid_body(
                        masses@[j].1 as int,
                    )),
            decreases self.bodies@.len() - i,
        {
            proof {
                assert(self.bodies@[i as int].wf());
                assert(self.bodies@.subrange(0, i + 1).drop_last() =~= self.bodies@.subrange(
                    0,
                    i as int,
                ));
                assert(self.bodies@.subrange(0, i + 1).last() == self.bodies@[i as int]);
            }
            let b = &self.bodies[i];
            if b.alive {
                masses.push((b.position, b.mass));
            }
            i = i + 1;
        }
        proof {
            assert(self.bodies@.subrange(0, self.bodies@.len() as int) =~= self.bodies@);
        }
        masses
    }
}

/// The alive bodies of a list as (position, mass) pairs, in order.
pub open spec fn spec_alive_masses(bodies: Seq<Body>) -> Seq<(Vec3, i64)>
    decreases bodies.len(),
{
    if bodies.len() == 0 {
        Seq::empty()
    } else {
        let init = spec_alive_masses(bodies.drop_last());
        if bodies.last().alive {
            init.push((bodies.last().position, bodies.last().mass))
        } else {
            init
        }
    }
}

/// Fold of the gravity kicks of a list of bodies over one velocity.
pub open spec fn spec_gravity_fold(
    pos: Vec3,
    vel: Vec3,
    mult: int,
    masses: Seq<(Vec3, i64)>,
    dt_ms: int,
) -> Vec3
    decreases masses.len(),
{
    if masses.len() == 0 {
        vel
    } else {
        let v1 = crate::gravity::spec_gravity_kick(
            pos,
            vel,
            mult,
            masses[0].0,
            masses[0].1 as int,
            dt_ms,
        );
        spec_gravity_fold(pos, v1, mult, masses.drop_first(), dt_ms)
    }
}

/// Apply the whole gravity field to one mover's velocity.
pub fn gravity_all(
    pos: &Vec3,
    vel: &Vec3,
    mult: i64,
    masses: &Vec<(Vec3, i64)>,
    dt_ms: i64,
) -> (r: Vec3)
    requires
        pos.wf(),
        vel.wf(),
        0 <= mult <= crate::gravity::GRAVITY_MULT_LIM,
        valid_dt(dt_ms as int),
        forall|j: int|
            0 <= j < masses@.len() ==> ((#[trigger] masses@[j]).0.wf() && valid_body(
                masses@[j].1 as int,
            )),
    ensures
        r == spec_gravity_fold(*pos, *vel, mult as int, masses@, dt_ms as int),
        r.wf(),
{
    let mut v = *vel;
    let mut i: usize = 0;
    proof {
        assert(masses@.subrange(0, masses@.len() as int) =~= masses@);
    }
    while i < masses.len()
        invariant
            pos.wf(),
            v.wf(),
            0 <= i <= masses@.len(),
            0 <= mult <= crate::gravity::GRAVITY_MULT_LIM,
            valid_dt(dt_ms as int),
            forall|j: int|
                0 <= j < masses@.len() ==> ((#[trigger] masses@[j]).0.wf() && valid_body(
                    masses@[j].1 as int,
                )),
            spec_gravity_fold(*pos, *vel, mult as int, masses@, dt_ms as int)
                == spec_gravity_fold(
                *pos,
                v,
                mult as int,
                masses@.subrange(i as int, masses@.len() as int),
                dt_ms as int,
            ),
        decreases masses@.len() - i,
    {
        proof {
            assert(masses@[i as int].0.wf());
            assert(masses@.subrange(i as int, masses@.len() as int).drop_first()
                =~= masses@.subrange(i + 1, masses@.len() as int));
            assert(masses@.subrange(i as int, masses@.len() as int)[0] == masses@[i as int]);
        }
        let m = &masses[i];
        v = gravity_kick(pos, &v, mult, &m.0, m.1, dt_ms);
        i = i + 1;
    }
    proof {
        assert(masses@.subrange(masses@.len() as int, masses@.len() as int).len() == 0);
    }
    v
}

impl World {
    /// Gravity: every massless mover — ships, bullets, explosion
    /// particles — is kicked by every alive body (ships at the default
    /// susceptibility, bullets and particles at the bullet multiplier).
    /// Positions do not change here; only velocities.
    pub fn phase_gravity(&mut self, dt_ms: i64)
        requires
            old(self).wf(),
            valid_dt(dt_ms as int),
        ensures
            final(self).wf(),
            spec_phase_gravity_rel(*old(self), *final(self), dt_ms as int),
    {
        let masses = self.collect_masses();

        let pvel = gravity_all(
            &self.player.position,
            &self.player.velocity,
            DEFAULT_GRAVITY_MULTIPLIER,
            &masses,
            dt_ms,
        );
        self.player.velocity = pvel;

        let mut i: usize = 0;
        while i < self.enemies.len()
            invariant
                self.wf(),
                valid_dt(dt_ms as int),
                masses@ == spec_alive_masses(old(self).bodies@),
                forall|j: int|
                    0 <= j < masses@.len() ==> ((#[trigger] masses@[j]).0.wf() && valid_body(
                        masses@[j].1 as int,
                    )),
                self.player == spec_player_kicked(old(self).player, masses@, dt_ms as int),
                self.enemies@.len() == old(self).enemies@.len(),
                0 <= i <= self.enemies@.len(),
                forall|j: int|
                    0 <= j < i ==> #[trigger] self.enemies@[j] == spec_enemy_kicked(
                        old(self).enemies@[j],
                        masses@,
                        dt_ms as int,
                    ),
                forall|j: int|
                    i <= j < self.enemies@.len() ==> #[trigger] self.enemies@[j] == old(
                        self,
                    ).enemies@[j],
                *self == (World { player: self.player, enemies: self.enemies, ..*old(self) }),
            decreases self.enemies@.len() - i,
        {
            proof {
                assert(self.enemies@[i as int].wf());
            }
            let mut e = self.enemies[i];
            let v = gravity_all(&e.position, &e.velocity, DEFAULT_GRAVITY_MULTIPLIER, &masses, dt_ms);
            e.velocity = v;
            self.enemies.set(i, e);
            i = i + 1;
        }

        let mut i: usize = 0;
        while i < self.bullets.len()
            invariant
                self.wf(),
                valid_dt(dt_ms as int),
                masses@ == spec_alive_masses(old(self).bodies@),
                forall|j: int|
                    0 <= j < masses@.len() ==> ((#[trigger] masses@[j]).0.wf() && valid_body(
                        masses@[j].1 as int,
                    )),
                self.player == spec_player_kicked(old(self).player, masses@, dt_ms as int),
                self.enemies@.len() == old(self).enemies@.len(),
                forall|j: int|
                    0 <= j < self.enemies@.len() ==> #[trigger] self.enemies@[j]
                        == spec_enemy_kicked(old(self).enemies@[j], masses@, dt_ms as int),
                self.bullets@.len() == old(self).bullets@.len(),
                0 <= i <= self.bullets@.len(),
                forall|j: int|
                    0 <= j < i ==> #[trigger] self.bullets@[j] == spec_bullet_kicked(
                        old(self).bullets@[j],
                        masses@,
                        dt_ms as int,
                    ),
                forall|j: int|
                    i <= j < self.bullets@.len() ==> #[trigger] self.bullets@[j] == old(
                        self,
                    ).bullets@[j],
                *self == (World {
                    player: self.player,
                    enemies: self.enemies,
                    bullets: self.bullets,
                    ..*old(self)
                }),
            decreases self.bullets@.len() - i,
        {
            proof {
                assert(self.bullets@[i as int].wf());
            }
            let mut b = self.bullets[i];
            let v = gravity_all(&b.position, &b.velocity, BULLET_GRAVITY_MULT, &masses, dt_ms);
            b.velocity = v;
            self.bullets.set(i, b);
            i = i + 1;
        }

        let mut i: usize = 0;
        while i < self.explosions.len()
            invariant
                self.wf(),
                valid_dt(dt_ms as int),
                masses@ == spec_alive_masses(old(self).bodies@),
                forall|j: int|
                    0 <= j < masses@.len() ==> ((#[trigger] masses@[j]).0.wf() && valid_body(
                        masses@[j].1 as int,
                    )),
                self.player == spec_player_kicked(old(self).player, masses@, dt_ms as int),
                self.enemies@.len() == old(self).enemies@.len(),
                forall|j: int|
                    0 <= j < self.enemies@.len() ==> #[trigger] self.enemies@[j]
                        == spec_enemy_kicked(old(self).enemies@[j], masses@, dt_ms as int),
                self.bullets@.len() == old(self).bullets@.len(),
                forall|j: int|
                    0 <= j < self.bullets@.len() ==> #[trigger] self.bullets@[j]
                        == spec_bullet_kicked(old(self).bullets@[j], masses@, dt_ms as int),
                self.explosions@.len() == old(self).explosions@.len(),
                0 <= i <= self.explosions@.len(),
                forall|j: int|
                    0 <= j < i ==> spec_explosion_kicked(
                        old(self).explosions@[j],
                        #[trigger] self.explosions@[j],
                        masses@,
                        dt_ms as int,
                    ),
                forall|j: int|
                    i <= j < self.explosions@.len() ==> #[trigger] self.explosions@[j] == old(
                        self,
                    ).explosions@[j],
                *self == (World {
                    player: self.player,
                    enemies: self.enemies,
                    bullets: self.bullets,
                    explosions: self.explosions,
                    ..*old(self)
                }),
            decreases self.explosions@.len() - i,
        {
            proof {
                assert(self.explosions@[i as int].wf());
            }
            let mut ex = self.explosions.remove(i);
            let ghost ex0 = ex;
            let mut k: usize = 0;
            while k < ex.particles.len()
                invariant
                    ex.wf(),
                    valid_dt(dt_ms as int),
                    masses@ == spec_alive_masses(old(self).bodies@),
                    forall|j: int|
                        0 <= j < masses@.len() ==> ((#[trigger] masses@[j]).0.wf() && valid_body(
                            masses@[j].1 as int,
                        )),
                    ex.ttl_ms == ex0.ttl_ms,
                    ex.kind == ex0.kind,
                    ex.tint == ex0.tint,
                    ex.particles@.len() == ex0.particles@.len(),
                    0 <= k <= ex.particles@.len(),
                    forall|j: int|
                        0 <= j < k ==> #[trigger] ex.particles@[j] == spec_particle_kicked(
                            ex0.particles@[j],
                            masses@,
                            dt_ms as int,
                        ),
                    forall|j: int|
                        k <= j < ex.particles@.len() ==> #[trigger] ex.particles@[j]
                            == ex0.particles@[j],
                decreases ex.particles@.len() - k,
            {
                proof {
                    assert(ex.particles@[k as int].wf());
                }
                let mut part = ex.particles[k];
                let v = gravity_all(
                    &part.position,
                    &part.velocity,
                    BULLET_GRAVITY_MULT,
                    &masses,
                    dt_ms,
                );
                part.velocity = v;
                ex.particles.set(k, part);
                k = k + 1;
            }
            self.explosions.insert(i, ex);
            i = i + 1;
        }
    }

    /// Kinematics: cap ship speeds, integrate every mover's position,
    /// and keep ships inside the map circle. After this phase every
    /// ship's speed is within the cap and every ship stands inside the
    /// map; every mover's position and velocity are exactly one
    /// `spec_kinematics` step of its old state.
    pub fn phase_kinematics(&mut self, dt_ms: i64)
        requires
            old(self).wf(),
            valid_dt(dt_ms as int),
        ensures
            final(self).wf(),
            final(self).ships_capped(),
            final(self).ships_in_map(),
            spec_phase_kinematics_rel(*old(self), *final(self), dt_ms as int),
    {
        proof {
            crate::fixed::lemma_rescale_cap_sq(SHIP_MAX_SPEED as int);
        }
        let (ppos, pvel) = apply_velocity(
            &self.player.position,
            &self.player.velocity,
            Some(SHIP_MAX_SPEED),
            true,
            dt_ms,
        );
        self.player.position = ppos;
        self.player.velocity = pvel;

        let mut i: usize = 0;
        while i < self.enemies.len()
            invariant
                self.wf(),
                valid_dt(dt_ms as int),
                self.player == spec_player_moved(old(self).player, dt_ms as int),
                self.player.velocity.spec_norm_sq() <= SHIP_MAX_SPEED * SHIP_MAX_SPEED,
                self.player.position.spec_norm_sq() <= MAP_RADIUS * MAP_RADIUS,
                self.enemies@.len() == old(self).enemies@.len(),
                0 <= i <= self.enemies@.len(),
                forall|j: int|
                    0 <= j < i ==> #[trigger] self.enemies@[j] == spec_enemy_moved(
                        old(self).enemies@[j],
                        dt_ms as int,
                    ),
                forall|j: int|
                    i <= j < self.enemies@.len() ==> #[trigger] self.enemies@[j] == old(
                        self,
                    ).enemies@[j],
                forall|j: int|
                    0 <= j < i ==> ((#[trigger] self.enemies@[j]).velocity.spec_norm_sq()
                        <= SHIP_MAX_SPEED * SHIP_MAX_SPEED
                        && self.enemies@[j].position.spec_norm_sq() <= MAP_RADIUS * MAP_RADIUS),
                *self == (World { player: self.player, enemies: self.enemies, ..*old(self) }),
            decreases self.enemies@.len() - i,
        {
            proof {
                assert(self.enemies@[i as int].wf());
                crate::fixed::lemma_rescale_cap_sq(SHIP_MAX_SPEED as int);
            }
            let mut e = self.enemies[i];
            let (pos, vel) = apply_velocity(&e.position, &e.velocity, Some(SHIP_MAX_SPEED), true, dt_ms);
            e.position = pos;
            e.velocity = vel;
            self.enemies.set(i, e);
            i = i + 1;
        }

        let mut i: usize = 0;
        while i < self.bullets.len()
            invariant
                self.wf(),
                valid_dt(dt_ms as int),
                self.player == spec_player_moved(old(self).player, dt_ms as int),
                self.ships_capped(),
                self.ships_in_map(),
                self.enemies@.len() == old(self).enemies@.len(),
                forall|j: int|
                    0 <= j < self.enemies@.len() ==> #[trigger] self.enemies@[j]
                        == spec_enemy_moved(old(self).enemies@[j], dt_ms as int),
                self.bullets@.len() == old(self).bullets@.len(),
                0 <= i <= self.bullets@.len(),
                forall|j: int|
                    0 <= j < i ==> #[trigger] self.bullets@[j] == spec_bullet_moved(
                        old(self).bullets@[j],
                        dt_ms as int,
                    ),
                forall|j: int|
                    i <= j < self.bullets@.len() ==> #[trigger] self.bullets@[j] == old(
                        self,
                    ).bullets@[j],
                *self == (World {
                    player: self.player,
                    enemies: self.enemies,
                    bullets: self.bullets,
                    ..*old(self)
                }),
            decreases self.bullets@.len() - i,
        {
            proof {
                assert(self.bullets@[i as int].wf());
            }
            let mut b = self.bullets[i];
            let (pos, vel) = apply_velocity(&b.position, &b.velocity, None, false, dt_ms);
            b.position = pos;
            b.velocity = vel;
            self.bullets.set(i, b);
            i = i + 1;
        }

        let mut i: usize = 0;
        while i < self.explosions.len()
            invariant
                self.wf(),
                valid_dt(dt_ms as int),
                self.player == spec_player_moved(old(self).player, dt_ms as int),
                self.ships_capped(),
                self.ships_in_map(),
                self.enemies@.len() == old(self).enemies@.len(),
                forall|j: int|
                    0 <= j < self.enemies@.len() ==> #[trigger] self.enemies@[j]
                        == spec_enemy_moved(old(self).enemies@[j], dt_ms as int),
                self.bullets@.len() == old(self).bullets@.len(),
                forall|j: int|
                    0 <= j < self.bullets@.len() ==> #[trigger] self.bullets@[j]
                        == spec_bullet_moved(old(self).bullets@[j], dt_ms as int),
                self.explosions@.len() == old(self).explosions@.len(),
                0 <= i <= self.explosions@.len(),
                forall|j: int|
                    0 <= j < i ==> spec_explosion_moved(
                        old(self).explosions@[j],
                        #[trigger] self.explosions@[j],
                        dt_ms as int,
                    ),
                forall|j: int|
                    i <= j < self.explosions@.len() ==> #[trigger] self.explosions@[j] == old(
                        self,
                    ).explosions@[j],
                *self == (World {
                    player: self.player,
                    enemies: self.enemies,
                    bullets: self.bullets,
                    explosions: self.explosions,
                    ..*old(self)
                }),
            decreases self.explosions@.len() - i,
        {
            proof {
                assert(self.explosions@[i as int].wf());
            }
            let mut ex = self.explosions.remove(i);
            let ghost ex0 = ex;
            let mut k: usize = 0;
            while k < ex.particles.len()
                invariant
                    ex.wf(),
                    valid_dt(dt_ms as int),
                    ex.ttl_ms == ex0.ttl_ms,
                    ex.kind == ex0.kind,
                    ex.tint == ex0.tint,
                    ex.particles@.len() == ex0.particles@.len(),
                    0 <= k <= ex.particles@.len(),
                    forall|j: int|
                        0 <= j < k ==> #[trigger] ex.particles@[j] == spec_particle_moved(
                            ex0.particles@[j],
                            dt_ms as int,
                        ),
                    forall|j: int|
                        k <= j < ex.particles@.len() ==> #[trigger] ex.particles@[j]
                            == ex0.particles@[j],
                decreases ex.particles@.len() - k,
            {
                proof {
                    assert(ex.particles@[k as int].wf());
                }
                let mut part = ex.particles[k];
                let (pos, vel) = apply_velocity(&part.position, &part.velocity, None, false, dt_ms);
                part.position = pos;
                part.velocity = vel;
                ex.particles.set(k, part);
                k = k + 1;
            }
            self.explosions.insert(i, ex);
            i = i + 1;
        }
    }
}

/// A player state after one kinematics step: capped at the ship speed,
/// kept in the map.
pub open spec fn spec_player_moved(p: PlayerState, dt: int) -> PlayerState {
    let m = crate::kinematics::spec_kinematics(
        p.position,
        p.velocity,
        Some(SHIP_MAX_SPEED),
        true,
        dt,
    );
    PlayerState { position: m.0, velocity: m.1, ..p }
}

/// An enemy after one kinematics step.
pub open spec fn spec_enemy_moved(e: EnemyState, dt: int) -> EnemyState {
    let m = crate::kinematics::spec_kinematics(
        e.position,
        e.velocity,
        Some(SHIP_MAX_SPEED),
        true,
        dt,
    );
    EnemyState { position: m.0, velocity: m.1, ..e }
}

/// A bullet after one kinematics step: no cap, no containment.
pub open spec fn spec_bullet_moved(b: Bullet, dt: int) -> Bullet {
    let m = crate::kinematics::spec_kinematics(b.position, b.velocity, None, false, dt);
    Bullet { position: m.0, velocity: m.1, ..b }
}

/// A particle after one kinematics step: no cap, no containment.
pub open spec fn spec_particle_moved(p: Particle, dt: int) -> Particle {
    let m = crate::kinematics::spec_kinematics(p.position, p.velocity, None, false, dt);
    Particle { position: m.0, velocity: m.1 }
}

/// An explosion after one kinematics step: every particle moved, the
/// countdown and looks untouched.
pub open spec fn spec_explosion_moved(pre: ExplosionState, post: ExplosionState, dt: int) -> bool {
    &&& post.ttl_ms == pre.ttl_ms
    &&& post.kind == pre.kind
    &&& post.tint == pre.tint
    &&& post.particles@.len() == pre.particles@.len()
    &&& forall|k: int|
        0 <= k < pre.particles@.len() ==> #[trigger] post.particles@[k] == spec_particle_moved(
            pre.particles@[k],
            dt,
        )
}

/// Everything one kinematics phase does: the player, every enemy, every
/// bullet and every explosion particle take exactly one
/// `spec_kinematics` step; nothing else of the world changes.
pub open spec fn spec_phase_kinematics_rel(pre: World, post: World, dt: int) -> bool {
    &&& post.player == spec_player_moved(pre.player, dt)
    &&& post.enemies@.len() == pre.enemies@.len()
    &&& (forall|j: int|
        0 <= j < pre.enemies@.len() ==> #[trigger] post.enemies@[j] == spec_enemy_moved(
            pre.enemies@[j],
            dt,
        ))
    &&& post.bullets@.len() == pre.bullets@.len()
    &&& (forall|j: int|
        0 <= j < pre.bullets@.len() ==> #[trigger] post.bullets@[j] == spec_bullet_moved(
            pre.bullets@[j],
            dt,
        ))
    &&& post.explosions@.len() == pre.explosions@.len()
    &&& (forall|j: int|
        0 <= j < pre.explosions@.len() ==> spec_explosion_moved(
            pre.explosions@[j],
            #[trigger] post.explosions@[j],
            dt,
        ))
    &&& post == (World {
        player: post.player,
        enemies: post.enemies,
        bullets: post.bullets,
        explosions: post.explosions,
        ..pre
    })
}

/// The player after one gravity phase: kicked by every alive body at
/// the default susceptibility; nothing else of the player changes.
pub open spec fn spec_player_kicked(p: PlayerState, masses: Seq<(Vec3, i64)>, dt: int)
    -> PlayerState {
    PlayerState {
        velocity: spec_gravity_fold(
            p.position,
            p.velocity,
            DEFAULT_GRAVITY_MULTIPLIER as int,
            masses,
            dt,
        ),
        ..p
    }
}

/// An enemy after one gravity phase.
pub open spec fn spec_enemy_kicked(e: EnemyState, masses: Seq<(Vec3, i64)>, dt: int) -> EnemyState {
    EnemyState {
        velocity: spec_gravity_fold(
            e.position,
            e.velocity,
            DEFAULT_GRAVITY_MULTIPLIER as int,
            masses,
            dt,
        ),
        ..e
    }
}

/// A bullet after one gravity phase: the bullet susceptibility, and the
/// position untouched.
pub open spec fn spec_bullet_kicked(b: Bullet, masses: Seq<(Vec3, i64)>, dt: int) -> Bullet {
    Bullet {
        velocity: spec_gravity_fold(b.position, b.velocity, BULLET_GRAVITY_MULT as int, masses, dt),
        ..b
    }
}

/// A particle after one gravity phase: the bullet susceptibility, and
/// the position untouched.
pub open spec fn spec_particle_kicked(p: Particle, masses: Seq<(Vec3, i64)>, dt: int) -> Particle {
    Particle {
        position: p.position,
        velocity: spec_gravity_fold(p.position, p.velocity, BULLET_GRAVITY_MULT as int, masses, dt),
    }
}

/// An explosion after one gravity phase: every particle kicked, the
/// countdown and looks untouched.
pub open spec fn spec_explosion_kicked(
    pre: ExplosionState,
    post: ExplosionState,
    masses: Seq<(Vec3, i64)>,
    dt: int,
) -> bool {
    &&& post.ttl_ms == pre.ttl_ms
    &&& post.kind == pre.kind
    &&& post.tint == pre.tint
    &&& post.particles@.len() == pre.particles@.len()
    &&& forall|k: int|
        0 <= k < pre.particles@.len() ==> #[trigger] post.particles@[k] == spec_particle_kicked(
            pre.particles@[k],
            masses,
            dt,
        )
}

/// Everything one gravity phase does: every mover's velocity takes the
/// whole field's fold over the alive bodies; no position and nothing
/// else of the world changes.
pub open spec fn spec_phase_gravity_rel(pre: World, post: World, dt: int) -> bool {
    let masses = spec_alive_masses(pre.bodies@);
    &&& post.player == spec_player_kicked(pre.player, masses, dt)
    &&& post.enemies@.len() == pre.enemies@.len()
    &&& (forall|j: int|
        0 <= j < pre.enemies@.len() ==> #[trigger] post.enemies@[j] == spec_enemy_kicked(
            pre.enemies@[j],
            masses,
            dt,
        ))
    &&& post.bullets@.len() == pre.bullets@.len()
    &&& (forall|j: int|
        0 <= j < pre.bullets@.len() ==> #[trigger] post.bullets@[j] == spec_bullet_kicked(
            pre.bullets@[j],
            masses,
            dt,
        ))
    &&& post.explosions@.len() == pre.explosions@.len()
    &&& (forall|j: int|
        0 <= j < pre.explosions@.len() ==> spec_explosion_kicked(
            pre.explosions@[j],
            #[trigger] post.explosions@[j],
            masses,
            dt,
        ))
    &&& post == (World {
        player: post.player,
        enemies: post.enemies,
        bullets: post.bullets,
        explosions: post.explosions,
        ..pre
    })
}

/// Where an enemy spawns for a drawn ring angle: on the map-radius ring.
pub open spec fn spec_ring_position(angle: int) -> Vec3 {
    Vec3 {
        x: crate::fixed::spec_mul_div(
            crate::trig::spec_cos(angle),
            MAP_RADIUS as int,
            crate::trig::TRIG_ONE as int,
        ) as i64,
        y: crate::fixed::spec_mul_div(
            crate::trig::spec_sin(angle),
            MAP_RADIUS as int,
            crate::trig::TRIG_ONE as int,
        ) as i64,
        z: 0 as i64,
    }
}

/// `e` is a freshly spawned enemy for ring angle `angle`: no target yet,
/// tangential heading, no commands, full enemy health, motionless.
pub open spec fn spec_fresh_enemy_at(e: EnemyState, level: Level, angle: int, mult: int) -> bool {
    &&& e.enemy == (Enemy {
        target: None,
        last_shot_ms: 0 as i64,
        damage_multiplier_milli: mult as i64,
    })
    &&& e.ship == (SpaceShip {
        rotation: crate::trig::spec_angle_mod(angle + crate::trig::ANGLE_HALF_PI) as i64,
        throttle: false,
        brake: false,
        steering: crate::ship::Steering::Straight,
        shoot: None,
        shoot_missile_lock: None,
    })
    &&& e.health.spec_max() == level.enemy_health
    &&& e.health.spec_current() == level.enemy_health
    &&& e.position == spec_ring_position(angle)
    &&& e.velocity == (Vec3 { x: 0 as i64, y: 0 as i64, z: 0 as i64 })
}

/// `e` is a freshly spawned enemy for some ring angle.
pub open spec fn spec_is_fresh_spawn(e: EnemyState, level: Level, mult: int) -> bool {
    exists|a: int| 0 <= a < ANGLE_TAU && spec_fresh_enemy_at(e, level, a, mult)
}

/// The final wave is due by a body's orbit: under a second of it left.
pub open spec fn spec_wave_due_body(b: Body) -> bool {
    match b.orbit {
        Some(p) => crate::enemy::spec_final_wave_due(
            p.orbit_progress_micro as int,
            p.orbit_time_ms as int,
        ),
        None => false,
    }
}

/// Everything one spawn phase does. Outside a running game, or without
/// a home planet, nothing. Otherwise the repeating timer ticks (and
/// resets when it fires), one fresh full-strength enemy arrives per
/// firing, and — once only — six fresh zero-damage distractors arrive
/// when the final wave falls due.
pub open spec fn spec_phase_spawn_rel(pre: World, post: World, dt: int) -> bool {
    match World::spec_home_idx(pre.bodies@) {
        Some(hi) => if pre.state != GameState::Running {
            post == pre
        } else {
            let fired = pre.spawner.timer_remaining_ms <= dt;
            let due = !pre.spawner.spawned_final_wave && spec_wave_due_body(pre.bodies@[hi]);
            let base = pre.enemies@.len() as int;
            let n1 = base + if fired {
                1int
            } else {
                0int
            };
            let n2 = n1 + if due {
                6int
            } else {
                0int
            };
            &&& post.spawner.timer_remaining_ms == if fired {
                pre.level.enemy_spawn_interval_ms as int
            } else {
                pre.spawner.timer_remaining_ms - dt
            }
            &&& post.spawner.spawned_final_wave == (pre.spawner.spawned_final_wave || due)
            &&& post.enemies@.len() == n2
            &&& (forall|j: int| 0 <= j < base ==> #[trigger] post.enemies@[j] == pre.enemies@[j])
            &&& (fired ==> spec_is_fresh_spawn(post.enemies@[base], pre.level, 1000))
            &&& (due ==> forall|j: int|
                n1 <= j < n2 ==> spec_is_fresh_spawn(#[trigger] post.enemies@[j], pre.level, 0))
            &&& post == (World { spawner: post.spawner, enemies: post.enemies, ..pre })
        },
        None => post == pre,
    }
}

/// Everything one orbit phase does: every scripted orbit advances one
/// step and its planet moves onto it; nothing else of the world changes.
pub open spec fn spec_phase_orbits_rel(pre: World, post: World, dt: int) -> bool {
    &&& post.bodies@.len() == pre.bodies@.len()
    &&& (forall|j: int|
        0 <= j < pre.bodies@.len() ==> #[trigger] post.bodies@[j] == spec_body_orbit_step(
            pre.bodies@[j],
            dt,
        ))
    &&& post == (World { bodies: post.bodies, ..pre })
}

/// The nine phases of one tick compose `start` into `post`, through
/// some sequence of intermediate worlds (the randomness of spawning, AI
/// draws and respawn sampling makes them existential).
pub open spec fn spec_tick_phases(start: World, post: World, input: PlayerInput, dt: int) -> bool {
    exists|w1: World, w2: World, w3: World, w4: World, w5: World, w6: World, w7: World, w8: World|
        {
            &&& #[trigger] spec_phase_spawn_rel(start, w1, dt)
            &&& #[trigger] spec_phase_ai_rel(w1, w2)
            &&& #[trigger] spec_phase_control_rel(w2, w3, input, dt)
            &&& #[trigger] spec_phase_orbits_rel(w3, w4, dt)
            &&& #[trigger] spec_phase_gravity_rel(w4, w5, dt)
            &&& #[trigger] spec_phase_kinematics_rel(w5, w6, dt)
            &&& #[trigger] spec_phase_bullets_rel(w6, w7, dt)
            &&& #[trigger] spec_phase_deaths_rel(w7, w8)
            &&& #[trigger] spec_phase_end_rel(w8, post, dt)
        }
}

/// Everything one tick does: the outbox is cleared, the clock advances
/// by the tick (saturating), and the phase relations compose, in the
/// documented order, from that starting world to the final one.
pub open spec fn spec_tick_rel(pre: World, post: World, input: PlayerInput, dt: int) -> bool {
    exists|w0: World|
        {
            &&& w0.events@ == Seq::<GameEvent>::empty()
            &&& w0.elapsed_ms == if pre.elapsed_ms + dt > ELAPSED_LIM {
                ELAPSED_LIM as int
            } else {
                pre.elapsed_ms + dt
            }
            &&& w0 == (World { events: w0.events, elapsed_ms: w0.elapsed_ms, ..pre })
            &&& #[trigger] spec_tick_phases(w0, post, input, dt)
        }
}

/// Remaining health of a body, zero where it carries none.
pub open spec fn spec_body_health_cur(b: Body) -> int {
    match b.health {
        Some(h) => h.spec_current(),
        None => 0,
    }
}

/// Orbit progress of a body, zero for the star.
pub open spec fn spec_body_progress(b: Body) -> int {
    match b.orbit {
        Some(p) => p.orbit_progress_micro as int,
        None => 0,
    }
}

/// Which world entity an obstacle in the bullet scan stands for.
#[derive(Clone, Copy, Debug)]
pub enum HitRef {
    Body(usize),
    Enemy(usize),
    Player,
}

/// Midpoint of two storable points, lifted one unit in `z` so the
/// explosion draws over both parties.
pub open spec fn spec_midpoint_above(a: Vec3, b: Vec3) -> Vec3 {
    Vec3 {
        x: crate::fixed::spec_clamp(crate::fixed::spec_mul_div(a.x + b.x, 1, 2)) as i64,
        y: crate::fixed::spec_clamp(crate::fixed::spec_mul_div(a.y + b.y, 1, 2)) as i64,
        z: crate::fixed::spec_clamp(crate::fixed::spec_mul_div(a.z + b.z, 1, 2) + 1000) as i64,
    }
}

fn midpoint_above(a: &Vec3, b: &Vec3) -> (r: Vec3)
    requires
        a.wf(),
        b.wf(),
    ensures
        r == spec_midpoint_above(*a, *b),
        r.wf(),
{
    let x = crate::fixed::mul_div(a.x + b.x, 1, 2);
    let y = crate::fixed::mul_div(a.y + b.y, 1, 2);
    let z = crate::fixed::mul_div(a.z + b.z, 1, 2);
    Vec3 {
        x: crate::fixed::clamp_world(x),
        y: crate::fixed::clamp_world(y),
        z: crate::fixed::clamp_world(z + 1000),
    }
}

/// The running state of one bullet pass: the evolving victim healths,
/// the bullets kept so far, and the events appended so far.
pub struct BulletPass {
    pub bodies: Seq<Body>,
    pub enemies: Seq<EnemyState>,
    pub player_health: Health,
    pub kept: Seq<Bullet>,
    pub events: Seq<GameEvent>,
}

/// A bullet's homing target: the position of its locked body, when that
/// body still resolves and is alive; a stale lock is inert.
pub open spec fn spec_bullet_target(bodies: Seq<Body>, lock: Option<usize>) -> Option<Vec3> {
    match lock {
        Some(bi) => if bi < bodies.len() && bodies[bi as int].alive {
            Some(bodies[bi as int].position)
        } else {
            None
        },
        None => None,
    }
}

/// The references the bullet scan's obstacles stand for: the alive
/// bodies by body index, in order.
pub open spec fn spec_alive_refs(bodies: Seq<Body>) -> Seq<HitRef>
    decreases bodies.len(),
{
    if bodies.len() == 0 {
        Seq::empty()
    } else {
        let init = spec_alive_refs(bodies.drop_last());
        if bodies.last().alive {
            init.push(HitRef::Body((bodies.len() - 1) as usize))
        } else {
            init
        }
    }
}

/// The enemies as obstacles, in order.
pub open spec fn spec_enemy_obstacles(enemies: Seq<EnemyState>) -> Seq<Obstacle> {
    Seq::new(
        enemies.len(),
        |i: int| Obstacle { position: enemies[i].position, radius: SHIP_RADIUS, group: GROUP_ENEMY },
    )
}

/// The obstacles a bullet can hit, in scan order: the alive celestial
/// bodies, then the enemies, then the player.
pub open spec fn spec_world_obstacles(pre: World) -> Seq<Obstacle> {
    spec_alive_obstacles(pre.bodies@) + spec_enemy_obstacles(pre.enemies@) + seq![
        Obstacle { position: pre.player.position, radius: SHIP_RADIUS, group: GROUP_PLAYER },
    ]
}

/// What each obstacle of the scan stands for, in the same order.
pub open spec fn spec_world_refs(pre: World) -> Seq<HitRef> {
    spec_alive_refs(pre.bodies@) + Seq::new(pre.enemies@.len(), |i: int| HitRef::Enemy(i as usize))
        + seq![HitRef::Player]
}

/// Every reference of `spec_alive_refs` indexes into the bodies.
proof fn lemma_alive_refs_valid(bodies: Seq<Body>)
    ensures
        spec_alive_refs(bodies).len() == spec_alive_obstacles(bodies).len(),
        forall|j: int|
            0 <= j < spec_alive_refs(bodies).len() ==> match #[trigger] spec_alive_refs(bodies)[j] {
                HitRef::Body(bi) => bi < bodies.len(),
                HitRef::Enemy(_) => false,
                HitRef::Player => false,
            },
    decreases bodies.len(),
{
    if bodies.len() > 0 {
        lemma_alive_refs_valid(bodies.drop_last());
    }
}

/// One bullet's resolution: its flight (countdown and homing), then the
/// first filter-matching overlap. While the game runs, a non-exempt hit
/// damages the victim by exactly the bullet's damage, with a small
/// explosion event at the midpoint when the victim survives; the bullet
/// is kept exactly when it neither expired nor hit.
pub open spec fn spec_bullet_step(
    st: BulletPass,
    b: Bullet,
    state: GameState,
    dt: int,
    obs: Seq<Obstacle>,
    refs: Seq<HitRef>,
    player_pos: Vec3,
) -> BulletPass {
    let target = spec_bullet_target(st.bodies, b.lock);
    let fl = crate::bullet::spec_update_flight(b, target, dt);
    let b1 = fl.0;
    let expired = fl.1;
    let hit = crate::bullet::spec_first_hit(b1.collider_filter, b1.position, obs, 0);
    let st1 = match hit {
        Some(h) => if state == GameState::Running && 0 <= h < refs.len()
            && !crate::collider::spec_celestial_exempt(b1.collider_filter, obs[h].group) {
            match refs[h] {
                HitRef::Body(bi) => if bi < st.bodies.len() {
                    match st.bodies[bi as int].health {
                        Some(h0) => {
                            let h1 = h0.spec_damaged(b1.damage as int);
                            let st2 = BulletPass {
                                bodies: st.bodies.update(
                                    bi as int,
                                    Body { health: Some(h1), ..st.bodies[bi as int] },
                                ),
                                ..st
                            };
                            if h1.spec_current() > 0 {
                                BulletPass {
                                    events: st2.events.push(
                                        GameEvent::Explosion {
                                            position: spec_midpoint_above(
                                                b1.position,
                                                st.bodies[bi as int].position,
                                            ),
                                            tint: b1.tint,
                                            kind: ExplosionKind::Small,
                                        },
                                    ),
                                    ..st2
                                }
                            } else {
                                st2
                            }
                        },
                        None => st,
                    }
                } else {
                    st
                },
                HitRef::Enemy(ei) => if ei < st.enemies.len() {
                    let h1 = st.enemies[ei as int].health.spec_damaged(b1.damage as int);
                    let st2 = BulletPass {
                        enemies: st.enemies.update(
                            ei as int,
                            EnemyState { health: h1, ..st.enemies[ei as int] },
                        ),
                        ..st
                    };
                    if h1.spec_current() > 0 {
                        BulletPass {
                            events: st2.events.push(
                                GameEvent::Explosion {
                                    position: spec_midpoint_above(
                                        b1.position,
                                        st.enemies[ei as int].position,
                                    ),
                                    tint: b1.tint,
                                    kind: ExplosionKind::Small,
                                },
                            ),
                            ..st2
                        }
                    } else {
                        st2
                    }
                } else {
                    st
                },
                HitRef::Player => {
                    let h1 = st.player_health.spec_damaged(b1.damage as int);
                    let st2 = BulletPass { player_health: h1, ..st };
                    if h1.spec_current() > 0 {
                        BulletPass {
                            events: st2.events.push(
                                GameEvent::Explosion {
                                    position: spec_midpoint_above(b1.position, player_pos),
                                    tint: b1.tint,
                                    kind: ExplosionKind::Small,
                                },
                            ),
                            ..st2
                        }
                    } else {
                        st2
                    }
                },
            }
        } else {
            st
        },
        None => st,
    };
    if expired || hit is Some {
        st1
    } else {
        BulletPass { kept: st1.kept.push(b1), ..st1 }
    }
}

/// The whole bullet pass, bullet by bullet in order.
pub open spec fn spec_bullet_pass(
    st: BulletPass,
    bullets: Seq<Bullet>,
    state: GameState,
    dt: int,
    obs: Seq<Obstacle>,
    refs: Seq<HitRef>,
    player_pos: Vec3,
) -> BulletPass
    decreases bullets.len(),
{
    if bullets.len() == 0 {
        st
    } else {
        spec_bullet_step(
            spec_bullet_pass(st, bullets.drop_last(), state, dt, obs, refs, player_pos),
            bullets.last(),
            state,
            dt,
            obs,
            refs,
            player_pos,
        )
    }
}

/// Everything one bullet phase does: the fold of `spec_bullet_step`
/// over the bullets, with an explosion effect per explosion event;
/// nobody moves and nothing else of the world changes — in particular
/// an obstacle no bullet hits keeps its health untouched.
pub open spec fn spec_phase_bullets_rel(pre: World, post: World, dt: int) -> bool {
    let obs = spec_world_obstacles(pre);
    let refs = spec_world_refs(pre);
    let init = BulletPass {
        bodies: pre.bodies@,
        enemies: pre.enemies@,
        player_health: pre.player.health,
        kept: Seq::empty(),
        events: pre.events@,
    };
    let out = spec_bullet_pass(init, pre.bullets@, pre.state, dt, obs, refs, pre.player.position);
    &&& post.bodies@ == out.bodies
    &&& post.enemies@ == out.enemies
    &&& post.player == (PlayerState { health: out.player_health, ..pre.player })
    &&& post.bullets@ == out.kept
    &&& post.events@ == out.events
    &&& spec_explosions_match_events(
        pre.explosions@,
        post.explosions@,
        out.events.skip(pre.events@.len() as int),
    )
    &&& post == (World {
        bodies: post.bodies,
        player: post.player,
        enemies: post.enemies,
        bullets: post.bullets,
        events: post.events,
        explosions: post.explosions,
        ..pre
    })
}

impl World {
    /// Bullet resolution: each bullet counts down and homes, then hits
    /// the first filter-matching, overlapping obstacle, scanning the
    /// alive celestial bodies first, then the enemies, then the player.
    /// While the game runs, a hit on an entity with health applies the
    /// bullet's damage — unless the celestial friendly-fire exemption
    /// suppresses it — and a surviving victim gets a small explosion at
    /// the midpoint. Every hit or expired bullet despawns this tick.
    #[verifier::rlimit(100)]
    pub fn phase_bullets(&mut self, dt_ms: i64)
        requires
            old(self).wf(),
            valid_dt(dt_ms as int),
        ensures
            final(self).wf(),
            old(self).ships_capped() ==> final(self).ships_capped(),
            old(self).ships_in_map() ==> final(self).ships_in_map(),
            spec_phase_bullets_rel(*old(self), *final(self), dt_ms as int),
    {
        let ghost pre = *old(self);
        let mut obs: Vec<Obstacle> = Vec::new();
        let mut refs: Vec<HitRef> = Vec::new();
        let mut i: usize = 0;
        proof {
            assert(self.bodies@.subrange(0, 0) =~= Seq::<Body>::empty());
        }
        while i < self.bodies.len()
            invariant
                self.wf(),
                *self == *old(self),
                0 <= i <= self.bodies@.len(),
                obs@ == spec_alive_obstacles(self.bodies@.subrange(0, i as int)),
                refs@ == spec_alive_refs(self.bodies@.subrange(0, i as int)),
                obs@.len() == refs@.len(),
                forall|j: int| 0 <= j < obs@.len() ==> (#[trigger] obs@[j]).wf(),
            decreases self.bodies@.len() - i,
        {
            proof {
                assert(self.bodies@[i as int].wf());
                assert(self.bodies@.subrange(0, i + 1).drop_last() =~= self.bodies@.subrange(
                    0,
                    i as int,
                ));
                assert(self.bodies@.subrange(0, i + 1).last() == self.bodies@[i as int]);
                assert(self.bodies@.subrange(0, i + 1).len() == i + 1);
            }
            let b = &self.bodies[i];
            if b.alive {
                obs.push(Obstacle { position: b.position, radius: b.radius, group: GROUP_CELESTIAL });
                refs.push(HitRef::Body(i));
            }
            i = i + 1;
        }
        proof {
            assert(self.bodies@.subrange(0, self.bodies@.len() as int) =~= self.bodies@);
        }
        let ghost body_obs = obs@;
        let ghost body_refs = refs@;
        let mut i: usize = 0;
        while i < self.enemies.len()
            invariant
                self.wf(),
                *self == *old(self),
                0 <= i <= self.enemies@.len(),
                body_obs == spec_alive_obstacles(self.bodies@),
                body_refs == spec_alive_refs(self.bodies@),
                obs@ == body_obs + spec_enemy_obstacles(self.enemies@.subrange(0, i as int)),
                refs@ == body_refs + Seq::new(i as nat, |k: int| HitRef::Enemy(k as usize)),
                obs@.len() == refs@.len(),
                forall|j: int| 0 <= j < obs@.len() ==> (#[trigger] obs@[j]).wf(),
            decreases self.enemies@.len() - i,
        {
            proof {
                assert(self.enemies@[i as int].wf());
            }
            let e = &self.enemies[i];
            obs.push(Obstacle { position: e.position, radius: SHIP_RADIUS, group: GROUP_ENEMY });
            refs.push(HitRef::Enemy(i));
            proof {
                assert(obs@ =~= body_obs + spec_enemy_obstacles(
                    self.enemies@.subrange(0, i + 1),
                ));
                assert(refs@ =~= body_refs + Seq::new(
                    (i + 1) as nat,
                    |k: int| HitRef::Enemy(k as usize),
                ));
            }
            i = i + 1;
        }
        obs.push(
            Obstacle { position: self.player.position, radius: SHIP_RADIUS, group: GROUP_PLAYER },
        );
        refs.push(HitRef::Player);
        proof {
            assert(self.enemies@.subrange(0, self.enemies@.len() as int) =~= self.enemies@);
            assert(obs@ =~= spec_world_obstacles(pre));
            assert(refs@ =~= spec_world_refs(pre));
        }

        let ghost init = BulletPass {
            bodies: pre.bodies@,
            enemies: pre.enemies@,
            player_health: pre.player.health,
            kept: Seq::empty(),
            events: pre.events@,
        };
        let mut kept: Vec<Bullet> = Vec::new();
        let mut i: usize = 0;
        proof {
            assert(pre.bullets@.subrange(0, 0) =~= Seq::<Bullet>::empty());
            lemma_alive_refs_valid(pre.bodies@);
        }
        while i < self.bullets.len()
            invariant
                self.wf(),
                valid_dt(dt_ms as int),
                obs@ == spec_world_obstacles(pre),
                refs@ == spec_world_refs(pre),
                obs@.len() == refs@.len(),
                forall|j: int| 0 <= j < obs@.len() ==> (#[trigger] obs@[j]).wf(),
                forall|j: int|
                    0 <= j < refs@.len() ==> match #[trigger] refs@[j] {
                        HitRef::Body(bi) => bi < self.bodies@.len(),
                        HitRef::Enemy(ei) => ei < self.enemies@.len(),
                        HitRef::Player => true,
                    },
                self.bullets == old(self).bullets,
                0 <= i <= self.bullets@.len(),
                pre.events@.len() <= self.events@.len(),
                self.enemies@.len() == pre.enemies@.len(),
                forall|j: int|
                    0 <= j < pre.enemies@.len() ==> #[trigger] self.enemies@[j] == (EnemyState {
                        health: self.enemies@[j].health,
                        ..pre.enemies@[j]
                    }),
                ({
                    let st = spec_bullet_pass(
                        init,
                        pre.bullets@.subrange(0, i as int),
                        pre.state,
                        dt_ms as int,
                        obs@,
                        refs@,
                        pre.player.position,
                    );
                    &&& self.bodies@ == st.bodies
                    &&& self.enemies@ == st.enemies
                    &&& self.player == (PlayerState { health: st.player_health, ..pre.player })
                    &&& kept@ == st.kept
                    &&& self.events@ == st.events
                    &&& spec_explosions_match_events(
                        pre.explosions@,
                        self.explosions@,
                        st.events.skip(pre.events@.len() as int),
                    )
                }),
                forall|j: int| 0 <= j < kept@.len() ==> (#[trigger] kept@[j]).wf(),
                forall|j: int|
                    0 <= j < kept@.len() ==> 0 < (#[trigger] kept@[j]).time_to_live_ms
                        <= crate::ship::BULLET_TTL_MS,
                *self == (World {
                    bodies: self.bodies,
                    player: self.player,
                    enemies: self.enemies,
                    events: self.events,
                    explosions: self.explosions,
                    ..pre
                }),
            decreases self.bullets@.len() - i,
        {
            proof {
                assert(self.bullets@[i as int].wf());
                assert(pre.bullets@.subrange(0, i + 1).drop_last() =~= pre.bullets@.subrange(
                    0,
                    i as int,
                ));
                assert(pre.bullets@.subrange(0, i + 1).last() == pre.bullets@[i as int]);
            }
            let ghost st = spec_bullet_pass(
                init,
                pre.bullets@.subrange(0, i as int),
                pre.state,
                dt_ms as int,
                obs@,
                refs@,
                pre.player.position,
            );
            let ghost ev0 = self.events@;
            let ghost expl0 = self.explosions@;
            let mut b = self.bullets[i];
            let target: Option<Vec3> = match b.lock {
                Some(bi) => {
                    if bi < self.bodies.len() {
                        proof {
                            assert(self.bodies@[bi as int].wf());
                        }
                        if self.bodies[bi].alive {
                            Some(self.bodies[bi].position)
                        } else {
                            None
                        }
                    } else {
                        None
                    }
                },
                None => None,
            };
            proof {
                assert(target == spec_bullet_target(st.bodies, pre.bullets@[i as int].lock));
            }
            let expired = match &target {
                Some(t) => update_flight(&mut b, Some(t), dt_ms),
                None => update_flight(&mut b, None, dt_ms),
            };
            let hit = scan_hit(&b.position, b.collider_filter, &obs);
            let mut remove = expired;
            match hit {
                Some(h) => {
                    remove = true;
                    if self.state == GameState::Running {
                        let group = obs[h].group;
                        let exempt = crate::collider::celestial_exempt(b.collider_filter, group);
                        if !exempt {
                            match refs[h] {
                                HitRef::Body(bi) => {
                                    proof {
                                        assert(self.bodies@[bi as int].wf());
                                    }
                                    let mut body = self.bodies[bi];
                                    match body.health {
                                        Some(hp0) => {
                                            let mut hp = hp0;
                                            hp.damage(b.damage);
                                            body.health = Some(hp);
                                            self.bodies.set(bi, body);
                                            if hp.current() > 0 {
                                                let pos = midpoint_above(&b.position, &body.position);
                                                self.emit_explosion(pos, b.tint, ExplosionKind::Small);
                                            }
                                        },
                                        None => {},
                                    }
                                },
                                HitRef::Enemy(ei) => {
                                    proof {
                                        assert(self.enemies@[ei as int].wf());
                                    }
                                    let mut e = self.enemies[ei];
                                    e.health.damage(b.damage);
                                    self.enemies.set(ei, e);
                                    if e.health.current() > 0 {
                                        let pos = midpoint_above(&b.position, &e.position);
                                        self.emit_explosion(pos, b.tint, ExplosionKind::Small);
                                    }
                                },
                                HitRef::Player => {
                                    let mut hp = self.player.health;
                                    hp.damage(b.damage);
                                    self.player.health = hp;
                                    if hp.current() > 0 {
                                        let pos = midpoint_above(&b.position, &self.player.position);
                                        self.emit_explosion(pos, b.tint, ExplosionKind::Small);
                                    }
                                },
                            }
                        }
                    }
                },
                None => {},
            }
            if !remove {
                kept.push(b);
            }
            proof {
                let st1 = spec_bullet_step(
                    st,
                    pre.bullets@[i as int],
                    pre.state,
                    dt_ms as int,
                    obs@,
                    refs@,
                    pre.player.position,
                );
                if self.events@.len() > ev0.len() {
                    let ev = self.events@.last();
                    lemma_couple_extend(
                        pre.explosions@,
                        expl0,
                        self.explosions@,
                        ev0.skip(pre.events@.len() as int),
                        ev,
                    );
                    assert(self.events@.skip(pre.events@.len() as int) =~= ev0.skip(
                        pre.events@.len() as int,
                    ).push(ev));
                }
                assert(self.bodies@ == st1.bodies);
                assert(self.enemies@ == st1.enemies);
                assert(self.player == (PlayerState { health: st1.player_health, ..pre.player }));
                assert(kept@ == st1.kept);
                assert(self.events@ == st1.events);
            }
            i = i + 1;
        }
        proof {
            assert(pre.bullets@.subrange(0, pre.bullets@.len() as int) =~= pre.bullets@);
        }
        self.bullets = kept;
    }
}

impl World {
    /// Ship and home-planet death. An enemy is removed exactly when it
    /// is out of health or overlaps a planet or the star, and leaves
    /// with a large explosion. A destroyed home planet despawns once,
    /// with its own large explosion. A dead player explodes and
    /// respawns — position rejection-sampled clear of the bodies (or
    /// kept, if every draw is rejected), oversized sprite, zero
    /// velocity, health restored to the level's value — and a living
    /// player clear of the bodies is untouched.
    pub fn phase_deaths(&mut self)
        requires
            old(self).wf(),
            old(self).ships_capped(),
            old(self).ships_in_map(),
        ensures
            final(self).wf(),
            final(self).ships_capped(),
            final(self).ships_in_map(),
            spec_phase_deaths_rel(*old(self), *final(self)),
    {
        let body_obs = self.body_obstacles();

        proof {
            assert(old(self).enemies@.subrange(0, 0) =~= Seq::<EnemyState>::empty());
        }
        let mut kept: Vec<EnemyState> = Vec::new();
        let mut i: usize = 0;
        while i < self.enemies.len()
            invariant
                self.wf(),
                self.enemies == old(self).enemies,
                body_obs@ == spec_alive_obstacles(old(self).bodies@),
                forall|j: int| 0 <= j < body_obs@.len() ==> (#[trigger] body_obs@[j]).wf(),
                old(self).ships_capped(),
                old(self).ships_in_map(),
                0 <= i <= self.enemies@.len(),
                kept@ == spec_surviving_enemies(old(self).enemies@.subrange(0, i as int), body_obs@),
                self.events@ == old(self).events@ + spec_enemy_death_events(
                    old(self).enemies@.subrange(0, i as int),
                    body_obs@,
                ),
                spec_explosions_match_events(
                    old(self).explosions@,
                    self.explosions@,
                    spec_enemy_death_events(old(self).enemies@.subrange(0, i as int), body_obs@),
                ),
                forall|j: int| 0 <= j < kept@.len() ==> (#[trigger] kept@[j]).wf(),
                forall|j: int|
                    0 <= j < kept@.len() ==> ((#[trigger] kept@[j]).velocity.spec_norm_sq()
                        <= SHIP_MAX_SPEED * SHIP_MAX_SPEED && kept@[j].position.spec_norm_sq()
                        <= MAP_RADIUS * MAP_RADIUS),
                *self == (World { events: self.events, explosions: self.explosions, ..*old(self) }),
            decreases self.enemies@.len() - i,
        {
            proof {
                assert(self.enemies@[i as int].wf());
                assert(self.enemies@[i as int].velocity.spec_norm_sq() <= SHIP_MAX_SPEED
                    * SHIP_MAX_SPEED);
                assert(old(self).enemies@.subrange(0, i + 1).drop_last()
                    =~= old(self).enemies@.subrange(0, i as int));
                assert(old(self).enemies@.subrange(0, i + 1).last() == old(self).enemies@[i as int]);
            }
            let e = self.enemies[i];
            let mut dead = e.health.current() <= 0;
            if !dead {
                dead = ship_hits_any_body(&e.position, SHIP_RADIUS, &body_obs);
            }
            proof {
                assert(dead == spec_enemy_doomed(e, body_obs@));
            }
            if dead {
                self.emit_explosion(e.position, Tint::EnemyShip, ExplosionKind::Large);
            } else {
                kept.push(e);
            }
            i = i + 1;
        }
        proof {
            assert(old(self).enemies@.subrange(0, old(self).enemies@.len() as int)
                =~= old(self).enemies@);
        }
        self.enemies = kept;
        proof {
            assert(self.ships_capped());
            assert(self.ships_in_map());
        }
        let ghost events_after_enemies = self.events@;
        let ghost expl_after_enemies = self.explosions@;

        if self.state == GameState::Running {
            match self.find_home() {
                Some(hi) => {
                    proof {
                        assert(self.bodies@[hi as int].wf());
                    }
                    let mut b = self.bodies[hi];
                    let dead = match &b.health {
                        Some(h) => h.current() <= 0,
                        None => false,
                    };
                    if b.alive && dead {
                        proof {
                            assert(spec_home_explodes(*old(self)));
                        }
                        b.alive = false;
                        self.bodies.set(hi, b);
                        self.emit_explosion(b.position, Tint::Home, ExplosionKind::Large);
                    } else {
                        proof {
                            assert(!spec_home_explodes(*old(self)));
                        }
                    }
                },
                None => {},
            }
        } else {
            proof {
                assert(!spec_home_explodes(*old(self)));
            }
        }
        let ghost events_after_home = self.events@;
        let ghost expl_after_home = self.explosions@;

        let dead = player_dead(&self.player.health, &self.player.position, SHIP_RADIUS, &body_obs);
        if dead {
            self.emit_explosion(self.player.position, Tint::PlayerShip, ExplosionKind::Large);
            match find_respawn_point(&body_obs, RESPAWN_TRIES) {
                Some(p) => {
                    proof {
                        lemma_respawn_in_map();
                    }
                    self.player.position = p;
                },
                None => {},
            }
            self.player.scale_milli = RESPAWN_SCALE_MILLI;
            self.player.velocity = Vec3::zero();
            proof {
                crate::fixed::lemma_rescale_cap_sq(SHIP_MAX_SPEED as int);
                assert(self.player.velocity.spec_norm_sq() == 0) by (nonlinear_arith)
                    requires
                        self.player.velocity.x == 0,
                        self.player.velocity.y == 0,
                        self.player.velocity.z == 0,
                ;
            }
            self.player.health = Health::new(self.level.player_health);
        }
        proof {
            assert(self.ships_capped());
            assert(self.ships_in_map());
            let pre = *old(self);
            let obs = spec_alive_obstacles(pre.bodies@);
            let enemy_events = spec_enemy_death_events(pre.enemies@, obs);
            let home_events: Seq<GameEvent> = if spec_home_explodes(pre) {
                match Self::spec_home_idx(pre.bodies@) {
                    Some(hi) => seq![
                        GameEvent::Explosion {
                            position: pre.bodies@[hi].position,
                            tint: Tint::Home,
                            kind: ExplosionKind::Large,
                        },
                    ],
                    None => Seq::empty(),
                }
            } else {
                Seq::empty()
            };
            let pdead = spec_player_doomed(pre, obs);
            let player_events: Seq<GameEvent> = if pdead {
                seq![
                    GameEvent::Explosion {
                        position: pre.player.position,
                        tint: Tint::PlayerShip,
                        kind: ExplosionKind::Large,
                    },
                ]
            } else {
                Seq::empty()
            };
            assert(events_after_enemies == pre.events@ + enemy_events);
            if spec_home_explodes(pre) {
                assert(events_after_home =~= events_after_enemies + home_events);
                lemma_couple_extend(
                    pre.explosions@,
                    expl_after_enemies,
                    expl_after_home,
                    enemy_events,
                    home_events[0],
                );
                assert(enemy_events.push(home_events[0]) =~= enemy_events + home_events);
            } else {
                assert(events_after_home =~= events_after_enemies + home_events);
            }
            if pdead {
                assert(self.events@ =~= events_after_home + player_events);
                lemma_couple_extend(
                    pre.explosions@,
                    expl_after_home,
                    self.explosions@,
                    enemy_events + home_events,
                    player_events[0],
                );
                assert((enemy_events + home_events).push(player_events[0]) =~= enemy_events
                    + home_events + player_events);
            } else {
                assert(self.events@ =~= events_after_home + player_events);
            }
            assert(self.events@ =~= pre.events@ + enemy_events + home_events + player_events);
            assert(spec_explosions_match_events(
                pre.explosions@,
                self.explosions@,
                enemy_events + home_events + player_events,
            ));
        }
    }
}

/// Appending one explosion event with its matching effect extends the
/// event/effect coupling by one.
proof fn lemma_couple_extend(
    pre: Seq<ExplosionState>,
    mid: Seq<ExplosionState>,
    post: Seq<ExplosionState>,
    appended: Seq<GameEvent>,
    ev: GameEvent,
)
    requires
        spec_explosions_match_events(pre, mid, appended),
        post.len() == mid.len() + 1,
        forall|j: int| 0 <= j < mid.len() ==> #[trigger] post[j] == mid[j],
        match ev {
            GameEvent::Explosion { position, tint, kind } => spec_is_explosion_entity(
                post.last(),
                position,
                tint,
                kind,
            ),
            _ => false,
        },
    ensures
        spec_explosions_match_events(pre, post, appended.push(ev)),
{
    let appended1 = appended.push(ev);
    assert forall|k: int| 0 <= k < appended1.len() implies match #[trigger] appended1[k] {
        GameEvent::Explosion { position, tint, kind } => spec_is_explosion_entity(
            post[pre.len() + k],
            position,
            tint,
            kind,
        ),
        _ => false,
    } by {
        if k < appended.len() {
            assert(appended1[k] == appended[k]);
            assert(post[pre.len() + k] == mid[pre.len() + k]);
        } else {
            assert(appended1[k] == ev);
            assert(post[pre.len() + k] == post.last());
        }
    }
}

/// An enemy is doomed: out of health, or overlapping one of the alive
/// celestial bodies.
pub open spec fn spec_enemy_doomed(e: EnemyState, obs: Seq<Obstacle>) -> bool {
    e.health.spec_current() <= 0 || exists|j: int|
        0 <= j < obs.len() && crate::enemy::spec_ship_overlaps(
            e.position,
            SHIP_RADIUS as int,
            #[trigger] obs[j],
        )
}

/// The enemies a death phase keeps: exactly those not doomed, in order.
pub open spec fn spec_surviving_enemies(enemies: Seq<EnemyState>, obs: Seq<Obstacle>) -> Seq<
    EnemyState,
>
    decreases enemies.len(),
{
    if enemies.len() == 0 {
        Seq::empty()
    } else {
        let init = spec_surviving_enemies(enemies.drop_last(), obs);
        if spec_enemy_doomed(enemies.last(), obs) {
            init
        } else {
            init.push(enemies.last())
        }
    }
}

/// The explosion events a death phase emits: one large enemy explosion
/// per doomed enemy, at its position, in order.
pub open spec fn spec_enemy_death_events(enemies: Seq<EnemyState>, obs: Seq<Obstacle>) -> Seq<
    GameEvent,
>
    decreases enemies.len(),
{
    if enemies.len() == 0 {
        Seq::empty()
    } else {
        let init = spec_enemy_death_events(enemies.drop_last(), obs);
        if spec_enemy_doomed(enemies.last(), obs) {
            init.push(
                GameEvent::Explosion {
                    position: enemies.last().position,
                    tint: Tint::EnemyShip,
                    kind: ExplosionKind::Large,
                },
            )
        } else {
            init
        }
    }
}

/// A body with health that has run out.
pub open spec fn spec_body_dead(b: Body) -> bool {
    match b.health {
        Some(h) => h.spec_current() <= 0,
        None => false,
    }
}

/// The home planet despawns this phase: while the game runs, it is
/// still alive, and its health is gone.
pub open spec fn spec_home_explodes(pre: World) -> bool {
    match World::spec_home_idx(pre.bodies@) {
        Some(hi) => pre.state == GameState::Running && pre.bodies@[hi].alive && spec_body_dead(
            pre.bodies@[hi],
        ),
        None => false,
    }
}

/// The player is dead this phase: out of health, or overlapping one of
/// the alive celestial bodies.
pub open spec fn spec_player_doomed(pre: World, obs: Seq<Obstacle>) -> bool {
    pre.player.health.spec_current() <= 0 || exists|j: int|
        0 <= j < obs.len() && crate::enemy::spec_ship_overlaps(
            pre.player.position,
            SHIP_RADIUS as int,
            #[trigger] obs[j],
        )
}

/// Everything one death phase does, against the alive bodies of entry:
/// exactly the doomed enemies are removed, each with its explosion; the
/// home planet's alive flag flips — once, with its explosion — exactly
/// when its health is gone while the game runs; a dead player explodes
/// and respawns (a sampled acceptable position or, failing every draw,
/// the old one; oversized sprite; zero velocity; restored health) and a
/// living one is untouched. The events arrive in that order, each
/// explosion event with its effect.
pub open spec fn spec_phase_deaths_rel(pre: World, post: World) -> bool {
    let obs = spec_alive_obstacles(pre.bodies@);
    let enemy_events = spec_enemy_death_events(pre.enemies@, obs);
    let home_events: Seq<GameEvent> = if spec_home_explodes(pre) {
        match World::spec_home_idx(pre.bodies@) {
            Some(hi) => seq![
                GameEvent::Explosion {
                    position: pre.bodies@[hi].position,
                    tint: Tint::Home,
                    kind: ExplosionKind::Large,
                },
            ],
            None => Seq::empty(),
        }
    } else {
        Seq::empty()
    };
    let pdead = spec_player_doomed(pre, obs);
    let player_events: Seq<GameEvent> = if pdead {
        seq![
            GameEvent::Explosion {
                position: pre.player.position,
                tint: Tint::PlayerShip,
                kind: ExplosionKind::Large,
            },
        ]
    } else {
        Seq::empty()
    };
    &&& post.enemies@ == spec_surviving_enemies(pre.enemies@, obs)
    &&& post.bodies@.len() == pre.bodies@.len()
    &&& (if spec_home_explodes(pre) {
        match World::spec_home_idx(pre.bodies@) {
            Some(hi) => post.bodies@ == pre.bodies@.update(
                hi,
                Body { alive: false, ..pre.bodies@[hi] },
            ),
            None => false,
        }
    } else {
        post.bodies@ == pre.bodies@
    })
    &&& (if pdead {
        &&& (crate::player::spec_respawn_ok(post.player.position, obs) || post.player.position
            == pre.player.position)
        &&& post.player.scale_milli == crate::player::RESPAWN_SCALE_MILLI
        &&& post.player.velocity == (Vec3 { x: 0 as i64, y: 0 as i64, z: 0 as i64 })
        &&& post.player.health.spec_max() == pre.level.player_health
        &&& post.player.health.spec_current() == pre.level.player_health
        &&& post.player.ship == pre.player.ship
    } else {
        post.player == pre.player
    })
    &&& post.events@ == pre.events@ + enemy_events + home_events + player_events
    &&& spec_explosions_match_events(
        pre.explosions@,
        post.explosions@,
        enemy_events + home_events + player_events,
    )
    &&& post == (World {
        bodies: post.bodies,
        player: post.player,
        enemies: post.enemies,
        events: post.events,
        explosions: post.explosions,
        ..pre
    })
}

/// The explosions after one expiry step: every countdown drops by the
/// tick, and the effects whose time is up despawn.
pub open spec fn spec_expired_explosions(exps: Seq<ExplosionState>, dt: int) -> Seq<ExplosionState>
    decreases exps.len(),
{
    if exps.len() == 0 {
        Seq::empty()
    } else {
        let init = spec_expired_explosions(exps.drop_last(), dt);
        if exps.last().ttl_ms > dt {
            init.push(ExplosionState { ttl_ms: (exps.last().ttl_ms - dt) as i64, ..exps.last() })
        } else {
            init
        }
    }
}

/// Everything one end phase does: the win/lose check runs on the home
/// planet's health and progress (the banner event fires exactly on the
/// transition); a win kills every enemy and starts the one-shot laser
/// with their last positions; a due milestone flashes once and moves
/// the threshold up a quarter; the laser runs down; and expired
/// explosion effects despawn. Nothing else of the world changes.
pub open spec fn spec_phase_end_rel(pre: World, post: World, dt: int) -> bool {
    let checked = match World::spec_home_idx(pre.bodies@) {
        Some(hi) => spec_check_end(
            pre.state,
            spec_body_health_cur(pre.bodies@[hi]),
            spec_body_progress(pre.bodies@[hi]),
        ),
        None => pre.state,
    };
    let won_now = pre.state == GameState::Running && checked == GameState::GameWon;
    let lost_now = pre.state == GameState::Running && checked == GameState::GameOver;
    let end_events: Seq<GameEvent> = if won_now {
        seq![GameEvent::Won]
    } else if lost_now {
        seq![GameEvent::Lost]
    } else {
        Seq::empty()
    };
    let mile_due = checked != GameState::GameOver && match World::spec_home_idx(pre.bodies@) {
        Some(hi) => crate::progress::spec_milestone_due(
            spec_body_progress(pre.bodies@[hi]),
            pre.next_milestone_percent as int,
        ),
        None => false,
    };
    let mile_events: Seq<GameEvent> = if mile_due {
        match World::spec_home_idx(pre.bodies@) {
            Some(hi) => seq![
                GameEvent::Milestone {
                    percent: pre.next_milestone_percent,
                    position: crate::progress::spec_milestone_label(pre.bodies@[hi].position),
                },
            ],
            None => Seq::empty(),
        }
    } else {
        Seq::empty()
    };
    &&& post.state == checked
    &&& post.events@ == pre.events@ + end_events + mile_events
    &&& post.next_milestone_percent == pre.next_milestone_percent + if mile_due {
        25int
    } else {
        0int
    }
    &&& (won_now ==> {
        &&& post.enemies@.len() == pre.enemies@.len()
        &&& (forall|j: int|
            0 <= j < pre.enemies@.len() ==> #[trigger] post.enemies@[j] == (EnemyState {
                health: pre.enemies@[j].health.spec_with_current(0),
                ..pre.enemies@[j]
            }))
        &&& post.laser.targets@ == pre.laser.targets@ + Seq::new(
            pre.enemies@.len(),
            |k: int| pre.enemies@[k].position,
        )
        &&& post.laser.remaining_ms == HOME_LASER_MS - dt
    })
    &&& (!won_now ==> {
        &&& post.enemies@ == pre.enemies@
        &&& post.laser.targets@ == pre.laser.targets@
        &&& post.laser.remaining_ms == if pre.laser.remaining_ms >= dt {
            pre.laser.remaining_ms - dt
        } else {
            0int
        }
    })
    &&& post.explosions@ == spec_expired_explosions(pre.explosions@, dt)
    &&& post == (World {
        state: post.state,
        enemies: post.enemies,
        laser: post.laser,
        next_milestone_percent: post.next_milestone_percent,
        events: post.events,
        explosions: post.explosions,
        ..pre
    })
}

/// A point of the respawn disk lies inside the map circle./// A point of the respawn disk lies inside the map circle.
proof fn lemma_respawn_in_map()
    ensures
        (crate::player::RESPAWN_DISK as int) * (crate::player::RESPAWN_DISK as int) <= (
        MAP_RADIUS as int) * (MAP_RADIUS as int),
{
    assert((500_000int) * (500_000int) <= (512_000int) * (512_000int)) by (nonlinear_arith);
}

impl World {
    /// End-of-tick bookkeeping: evaluate the win/lose conditions (the
    /// banner events fire exactly once, on the transition), run the
    /// victory effect — every live enemy is set dead and the one-shot
    /// home laser starts — flash due orbit milestones, and run the
    /// cosmetic timers down, despawning expired explosions.
    pub fn phase_end(&mut self, dt_ms: i64)
        requires
            old(self).wf(),
            old(self).ships_capped(),
            old(self).ships_in_map(),
            valid_dt(dt_ms as int),
        ensures
            final(self).wf(),
            final(self).ships_capped(),
            final(self).ships_in_map(),
            old(self).state != GameState::Running ==> final(self).state == old(self).state,
            (old(self).state == GameState::Running && final(self).state == GameState::GameWon)
                ==> (forall|j: int|
                0 <= j < final(self).enemies@.len()
                    ==> (#[trigger] final(self).enemies@[j]).health.spec_current() == 0),
            spec_phase_end_rel(*old(self), *final(self), dt_ms as int),
    {
        let before = self.state;
        match self.find_home() {
            Some(hi) => {
                proof {
                    assert(self.bodies@[hi as int].wf());
                }
                let b = &self.bodies[hi];
                let cur = match &b.health {
                    Some(h) => h.current(),
                    None => 0,
                };
                let prog = match &b.orbit {
                    Some(p) => p.orbit_progress_micro,
                    None => 0,
                };
                let new_state = check_end(before, cur, prog);
                if new_state == GameState::GameWon && before == GameState::Running {
                    self.events.push(GameEvent::Won);
                    proof {
                        assert(old(self).enemies@.subrange(0, 0) =~= Seq::<EnemyState>::empty());
                    }
                    let mut i: usize = 0;
                    while i < self.enemies.len()
                        invariant
                            self.wf(),
                            self.ships_capped(),
                            self.ships_in_map(),
                            self.state == old(self).state,
                            self.enemies@.len() == old(self).enemies@.len(),
                            self.events@ == old(self).events@.push(GameEvent::Won),
                            self.laser.remaining_ms == old(self).laser.remaining_ms,
                            self.laser.targets@ == old(self).laser.targets@ + Seq::new(
                                i as nat,
                                |k: int| old(self).enemies@[k].position,
                            ),
                            0 <= i <= self.enemies@.len(),
                            forall|j: int|
                                0 <= j < i ==> #[trigger] self.enemies@[j] == (EnemyState {
                                    health: old(self).enemies@[j].health.spec_with_current(0),
                                    ..old(self).enemies@[j]
                                }),
                            forall|j: int|
                                i <= j < self.enemies@.len() ==> #[trigger] self.enemies@[j] == old(
                                    self,
                                ).enemies@[j],
                            *self == (World {
                                enemies: self.enemies,
                                laser: self.laser,
                                events: self.events,
                                ..*old(self)
                            }),
                        decreases self.enemies@.len() - i,
                    {
                        proof {
                            assert(self.enemies@[i as int].wf());
                        }
                        let mut e = self.enemies[i];
                        e.health.set_dead();
                        self.enemies.set(i, e);
                        self.laser.targets.push(e.position);
                        proof {
                            assert(self.laser.targets@ =~= old(self).laser.targets@ + Seq::new(
                                (i + 1) as nat,
                                |k: int| old(self).enemies@[k].position,
                            ));
                        }
                        i = i + 1;
                    }
                    self.laser.remaining_ms = HOME_LASER_MS;
                } else if new_state == GameState::GameOver && before == GameState::Running {
                    self.events.push(GameEvent::Lost);
                }
                self.state = new_state;
            },
            None => {},
        }
        let ghost events_after_check = self.events@;

        if self.state != GameState::GameOver {
            match self.find_home() {
                Some(hi) => {
                    proof {
                        assert(self.bodies@[hi as int].wf());
                    }
                    let prog = match &self.bodies[hi].orbit {
                        Some(p) => p.orbit_progress_micro,
                        None => 0,
                    };
                    let mut next = self.next_milestone_percent;
                    let due = crate::progress::milestone_update(&mut next, prog);
                    self.next_milestone_percent = next;
                    match due {
                        Some(pct) => {
                            let home_pos = self.bodies[hi].position;
                            let label = crate::progress::milestone_label_position(&home_pos);
                            self.events.push(
                                GameEvent::Milestone { percent: pct, position: label },
                            );
                        },
                        None => {},
                    }
                },
                None => {},
            }
        }

        let _showing = self.laser.tick(dt_ms);

        let ghost w1 = *self;
        let ghost expl_entry = self.explosions@;
        let mut kept: Vec<ExplosionState> = Vec::new();
        proof {
            assert(expl_entry.subrange(0, 0) =~= Seq::<ExplosionState>::empty());
            assert(expl_entry.skip(0) =~= expl_entry);
        }
        while self.explosions.len() > 0
            invariant
                self.wf(),
                valid_dt(dt_ms as int),
                self.explosions@.len() <= expl_entry.len(),
                self.explosions@ == expl_entry.skip(
                    expl_entry.len() - self.explosions@.len(),
                ),
                kept@ == spec_expired_explosions(
                    expl_entry.subrange(0, expl_entry.len() - self.explosions@.len()),
                    dt_ms as int,
                ),
                forall|j: int| 0 <= j < kept@.len() ==> (#[trigger] kept@[j]).wf(),
                *self == (World { explosions: self.explosions, ..w1 }),
            decreases self.explosions@.len(),
        {
            let ghost done = expl_entry.len() - self.explosions@.len();
            proof {
                assert(self.explosions@[0].wf());
                assert(self.explosions@[0] == expl_entry[done as int]);
                assert(expl_entry.subrange(0, done + 1).drop_last() =~= expl_entry.subrange(
                    0,
                    done as int,
                ));
                assert(expl_entry.subrange(0, done + 1).last() == expl_entry[done as int]);
            }
            let mut ex = self.explosions.remove(0);
            proof {
                assert(self.explosions@ =~= expl_entry.skip(done + 1));
            }
            if ex.ttl_ms > dt_ms {
                ex.ttl_ms = ex.ttl_ms - dt_ms;
                kept.push(ex);
            }
        }
        self.explosions = kept;
        proof {
            assert(expl_entry.subrange(0, expl_entry.len() as int) =~= expl_entry);
            let pre = *old(self);
            let checked = match Self::spec_home_idx(pre.bodies@) {
                Some(hi) => spec_check_end(
                    pre.state,
                    spec_body_health_cur(pre.bodies@[hi]),
                    spec_body_progress(pre.bodies@[hi]),
                ),
                None => pre.state,
            };
            let won_now = pre.state == GameState::Running && checked == GameState::GameWon;
            let lost_now = pre.state == GameState::Running && checked == GameState::GameOver;
            let end_events: Seq<GameEvent> = if won_now {
                seq![GameEvent::Won]
            } else if lost_now {
                seq![GameEvent::Lost]
            } else {
                Seq::empty()
            };
            assert(events_after_check =~= pre.events@ + end_events);
            if won_now {
                assert forall|j: int| 0 <= j < self.enemies@.len() implies (#[trigger] self
                    .enemies@[j]).health.spec_current() == 0 by {
                    crate::health::lemma_with_current(pre.enemies@[j].health, 0);
                }
            }
            assert(self.events@ =~= events_after_check + self.events@.skip(
                events_after_check.len() as int,
            ));
            let mile_due = checked != GameState::GameOver && match Self::spec_home_idx(
                pre.bodies@,
            ) {
                Some(hi) => crate::progress::spec_milestone_due(
                    spec_body_progress(pre.bodies@[hi]),
                    pre.next_milestone_percent as int,
                ),
                None => false,
            };
            let mile_events: Seq<GameEvent> = if mile_due {
                match Self::spec_home_idx(pre.bodies@) {
                    Some(hi) => seq![
                        GameEvent::Milestone {
                            percent: pre.next_milestone_percent,
                            position: crate::progress::spec_milestone_label(
                                pre.bodies@[hi].position,
                            ),
                        },
                    ],
                    None => Seq::empty(),
                }
            } else {
                Seq::empty()
            };
            assert(self.events@.skip(events_after_check.len() as int) =~= mile_events);
            assert(self.events@ =~= pre.events@ + end_events + mile_events);
            assert(self.next_milestone_percent == pre.next_milestone_percent + if mile_due {
                25int
            } else {
                0int
            });
            assert(self.explosions@ == spec_expired_explosions(pre.explosions@, dt_ms as int));
        }
    }

    /// One simulation tick: consume the player's input, advance the
    /// world by `dt_ms` milliseconds in the documented phase order, and
    /// refill the event outbox.
    ///
    /// On top of the per-phase contracts, the tick guarantees: the
    /// in-game clock advances by `dt_ms` (saturating); ships end the
    /// tick inside the map and within the ship speed cap; a terminal
    /// state never changes; and the state the tick ends in is exactly
    /// what the win/lose rules dictate from the home planet's final
    /// health and orbit progress (`GameOver` as soon as the health is
    /// gone — taking priority — and `GameWon` once the orbit completes),
    /// with every enemy set dead on the tick the run is won.
    #[verifier::rlimit(100)]
    pub fn tick(&mut self, input: PlayerInput, dt_ms: i64)
        requires
            old(self).wf(),
            valid_dt(dt_ms as int),
        ensures
            final(self).wf(),
            final(self).ships_capped(),
            final(self).ships_in_map(),
            final(self).level == old(self).level,
            final(self).elapsed_ms == if old(self).elapsed_ms + dt_ms > ELAPSED_LIM {
                ELAPSED_LIM as int
            } else {
                old(self).elapsed_ms + dt_ms
            },
            old(self).state != GameState::Running ==> final(self).state == old(self).state,
            match Self::spec_home_idx(final(self).bodies@) {
                Some(hi) => final(self).state == spec_check_end(
                    old(self).state,
                    spec_body_health_cur(final(self).bodies@[hi]),
                    spec_body_progress(final(self).bodies@[hi]),
                ),
                None => final(self).state == old(self).state,
            },
            (old(self).state == GameState::Running && final(self).state == GameState::GameWon)
                ==> (forall|j: int|
                0 <= j < final(self).enemies@.len()
                    ==> (#[trigger] final(self).enemies@[j]).health.spec_current() == 0),
            spec_tick_rel(*old(self), *final(self), input, dt_ms as int),
    {
        self.events = Vec::new();
        if self.elapsed_ms + dt_ms > ELAPSED_LIM {
            self.elapsed_ms = ELAPSED_LIM;
        } else {
            self.elapsed_ms = self.elapsed_ms + dt_ms;
        }
        let ghost w0 = *self;

        self.phase_spawn(dt_ms);
        let ghost w1 = *self;
        self.phase_ai();
        let ghost w2 = *self;
        self.phase_control(input, dt_ms);
        let ghost w3 = *self;
        self.phase_orbits(dt_ms);
        let ghost w4 = *self;
        self.phase_gravity(dt_ms);
        let ghost w5 = *self;
        self.phase_kinematics(dt_ms);
        let ghost w6 = *self;
        self.phase_bullets(dt_ms);
        let ghost w7 = *self;
        self.phase_deaths();
        let ghost w8 = *self;
        self.phase_end(dt_ms);
        proof {
            assert(w0.events@ =~= Seq::<GameEvent>::empty());
            assert(spec_tick_phases(w0, *self, input, dt_ms as int)) by {
                assert(spec_phase_spawn_rel(w0, w1, dt_ms as int));
                assert(spec_phase_ai_rel(w1, w2));
                assert(spec_phase_control_rel(w2, w3, input, dt_ms as int));
                assert(spec_phase_orbits_rel(w3, w4, dt_ms as int));
                assert(spec_phase_gravity_rel(w4, w5, dt_ms as int));
                assert(spec_phase_kinematics_rel(w5, w6, dt_ms as int));
                assert(spec_phase_bullets_rel(w6, w7, dt_ms as int));
                assert(spec_phase_deaths_rel(w7, w8));
                assert(spec_phase_end_rel(w8, *self, dt_ms as int));
            }
        }
    }
}

impl World {
    /// Record an explosion: append the event to the outbox and spawn
    /// the cosmetic effect itself — a ring of particles thrown evenly
    /// outward at the kind's initial speed, despawning together after
    /// the kind's lifetime.
    fn emit_explosion(&mut self, position: Vec3, tint: Tint, kind: ExplosionKind)
        requires
            old(self).wf(),
            position.wf(),
        ensures
            final(self).wf(),
            final(self).events@ == old(self).events@.push(
                GameEvent::Explosion { position, tint, kind },
            ),
            final(self).explosions@.len() == old(self).explosions@.len() + 1,
            forall|j: int|
                0 <= j < old(self).explosions@.len() ==> final(self).explosions@[j] == old(
                    self,
                ).explosions@[j],
            spec_is_explosion_entity(final(self).explosions@.last(), position, tint, kind),
            *final(self) == (World {
                explosions: final(self).explosions,
                events: final(self).events,
                ..*old(self)
            }),
    {
        self.events.push(GameEvent::Explosion { position, tint, kind });
        let count = kind.particle_count();
        let ttl = kind.time_to_live_ms();
        let mut particles: Vec<Particle> = Vec::new();
        let mut k: usize = 0;
        while k < count
            invariant
                position.wf(),
                count == kind.spec_particle_count(),
                0 <= k <= count,
                particles@ == Seq::new(k as nat, |i: int| Particle {
                    position,
                    velocity: crate::events::spec_particle_velocity(kind, i),
                }),
                forall|j: int| 0 <= j < particles@.len() ==> (#[trigger] particles@[j]).wf(),
            decreases count - k,
        {
            let v = particle_velocity(kind, k);
            particles.push(Particle { position, velocity: v });
            proof {
                assert(particles@ =~= Seq::new((k + 1) as nat, |i: int| Particle {
                    position,
                    velocity: crate::events::spec_particle_velocity(kind, i),
                }));
            }
            k = k + 1;
        }
        self.explosions.push(ExplosionState { ttl_ms: ttl, kind, tint, particles });
    }
}

/// `e` is the cosmetic effect of one explosion: its kind's lifetime and
/// a ring of particles thrown evenly outward from the position.
pub open spec fn spec_is_explosion_entity(
    e: ExplosionState,
    position: Vec3,
    tint: Tint,
    kind: ExplosionKind,
) -> bool {
    &&& e.ttl_ms == kind.spec_time_to_live_ms()
    &&& e.kind == kind
    &&& e.tint == tint
    &&& e.particles@ == Seq::new(kind.spec_particle_count() as nat, |i: int| Particle {
        position,
        velocity: crate::events::spec_particle_velocity(kind, i),
    })
}

/// The explosion effects appended alongside a run of appended explosion
/// events: one entity per event, in order, each matching its event.
pub open spec fn spec_explosions_match_events(
    pre: Seq<ExplosionState>,
    post: Seq<ExplosionState>,
    appended: Seq<GameEvent>,
) -> bool {
    &&& post.len() == pre.len() + appended.len()
    &&& forall|j: int| 0 <= j < pre.len() ==> post[j] == pre[j]
    &&& forall|k: int|
        0 <= k < appended.len() ==> match #[trigger] appended[k] {
            GameEvent::Explosion { position, tint, kind } => spec_is_explosion_entity(
                post[pre.len() + k],
                position,
                tint,
                kind,
            ),
            _ => false,
        }
}

/// The obstacle a celestial body presents to ships and bullets.
pub open spec fn spec_body_obstacle(b: Body) -> Obstacle {
    Obstacle { position: b.position, radius: b.radius, group: GROUP_CELESTIAL }
}

/// The alive bodies of a list, as obstacles, in order.
pub open spec fn spec_alive_obstacles(bodies: Seq<Body>) -> Seq<Obstacle>
    decreases bodies.len(),
{
    if bodies.len() == 0 {
        Seq::empty()
    } else {
        let init = spec_alive_obstacles(bodies.drop_last());
        if bodies.last().alive {
            init.push(spec_body_obstacle(bodies.last()))
        } else {
            init
        }
    }
}

/// First home-tagged body at or after `from`.
pub open spec fn spec_first_home(bodies: Seq<Body>, from: int) -> Option<int>
    decreases bodies.len() - from,
{
    if from < 0 || from >= bodies.len() {
        None
    } else if bodies[from].is_home {
        Some(from)
    } else {
        spec_first_home(bodies, from + 1)
    }
}

/// Half an orbit period, kept positive.
fn half_or_one(t: i64) -> (r: i64)
    requires
        0 < t <= 1_000_000_000,
    ensures
        0 < r <= 1_000_000_000,
{
    if t >= 2 {
        t / 2
    } else {
        1
    }
}

/// Twice an orbit period, saturated at the period bound.
fn double_capped(t: i64) -> (r: i64)
    requires
        0 < t <= 1_000_000_000,
    ensures
        0 < r <= 1_000_000_000,
{
    if t <= 500_000_000 {
        2 * t
    } else {
        1_000_000_000
    }
}

} // verus!
