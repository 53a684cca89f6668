//! End-to-end scenarios over whole-world ticks.

use home_defense::bullet::{Bullet, Obstacle};
use home_defense::collider::{bullet_filter, GROUP_CELESTIAL, GROUP_ENEMY, GROUP_PLAYER};
use home_defense::enemy::Enemy;
use home_defense::events::{GameEvent, Tint};
use home_defense::game_state::GameState;
use home_defense::health::Health;
use home_defense::level::Level;
use home_defense::player::{find_respawn_from, find_respawn_point, respawn_ok, PlayerInput};
use home_defense::ship::{SpaceShip, BULLET_TTL_MS};
use home_defense::vec3::Vec3;
use home_defense::world::{EnemyState, World};

fn home_index(w: &World) -> usize {
    w.bodies.iter().position(|b| b.is_home).expect("a home planet exists")
}

fn far_enemy() -> EnemyState {
    EnemyState {
        enemy: Enemy::new(1000),
        ship: SpaceShip::new(0),
        health: Health::new(10_000),
        position: Vec3::new(400_000, 120_000, 0),
        velocity: Vec3::zero(),
    }
}

#[test]
fn scenario_win_on_orbit_completion() {
    // Home planet one tick short of a full orbit, at full health: the
    // tick that completes the orbit wins the run and kills every enemy
    // on the same or the next tick.
    let level = Level::easy();
    let mut w = World::new(&level);
    let hi = home_index(&w);
    w.bodies[hi].orbit.as_mut().unwrap().orbit_progress_micro = 999_999;
    w.enemies.push(far_enemy());
    w.enemies.push(far_enemy());

    assert_eq!(w.state, GameState::Running);
    w.tick(PlayerInput::idle(), 100);
    assert_eq!(w.state, GameState::GameWon);
    assert!(w.events.contains(&GameEvent::Won));
    for e in &w.enemies {
        assert_eq!(e.health.current(), 0);
    }
    // The victory is terminal and the dead enemies despawn next tick.
    w.tick(PlayerInput::idle(), 100);
    assert_eq!(w.state, GameState::GameWon);
    assert!(w.enemies.is_empty());
}

#[test]
fn scenario_loss_on_home_destruction() {
    // Home health driven to zero mid-orbit: the run is lost, not won,
    // whatever else is alive.
    let level = Level::easy();
    let mut w = World::new(&level);
    let hi = home_index(&w);
    w.bodies[hi].orbit.as_mut().unwrap().orbit_progress_micro = 500_000;
    w.bodies[hi].health.as_mut().unwrap().damage(300_000);
    w.enemies.push(far_enemy());

    w.tick(PlayerInput::idle(), 16);
    assert_eq!(w.state, GameState::GameOver);
    assert!(w.events.contains(&GameEvent::Lost));
    // The destroyed home despawned with its terminal explosion.
    assert!(!w.bodies[hi].alive);
    // Terminal: a later orbit completion cannot turn the loss into a win.
    w.bodies[hi].orbit.as_mut().unwrap().orbit_progress_micro = 999_999;
    w.tick(PlayerInput::idle(), 100);
    assert_eq!(w.state, GameState::GameOver);
}

#[test]
fn scenario_loss_beats_win_on_the_same_tick() {
    // Orbit completes on the very tick the home dies: losing wins.
    let level = Level::easy();
    let mut w = World::new(&level);
    let hi = home_index(&w);
    w.bodies[hi].orbit.as_mut().unwrap().orbit_progress_micro = 999_999;
    w.bodies[hi].health.as_mut().unwrap().set_dead();
    w.tick(PlayerInput::idle(), 100);
    assert_eq!(w.state, GameState::GameOver);
}

#[test]
fn scenario_fired_bullet_flies_straight_and_expires() {
    // Zero-gravity conditions: no bodies at all. The player fires once;
    // the bullet flies in a straight line, never sits in the world
    // beyond the bullet range, and despawns by range or expiry.
    let level = Level::easy();
    let mut w = World::new(&level);
    w.bodies.clear();
    w.player.position = Vec3::zero();
    w.player.velocity = Vec3::zero();

    let mut fire = PlayerInput::idle();
    fire.fire = true;
    w.tick(fire, 16);
    assert_eq!(w.bullets.len(), 1);
    assert!(w.events.contains(&GameEvent::ShotFired { tint: Tint::PlayerShip }));

    let mut ticks = 0u32;
    let mut seen_straight = true;
    while !w.bullets.is_empty() && ticks < 30_000 {
        w.tick(PlayerInput::idle(), 100);
        ticks += 1;
        if let Some(b) = w.bullets.first() {
            // Straight line: the heading-0 shot moves along +y only.
            seen_straight = seen_straight && b.position.x == 0 && b.position.z == 0;
            // Never kept in the world beyond the bullet range.
            let d2 = (b.position.x as i128).pow(2) + (b.position.y as i128).pow(2);
            assert!(d2 <= 1_024_000i128 * 1_024_000i128);
        }
    }
    assert!(seen_straight);
    assert!(w.bullets.is_empty());
    // At 256 u/s the 1024-unit range cuts the flight well before the
    // 20 s countdown would.
    assert!((ticks as i64) * 100 < BULLET_TTL_MS);
}

#[test]
fn scenario_enemy_bullet_damages_home_but_player_bullet_does_not() {
    let level = Level::easy();
    let mut w = World::new(&level);
    let hi = home_index(&w);
    let home_pos = w.bodies[hi].position;

    // An enemy-fired bullet (complement filter keeps the player bit) on
    // top of the home planet: the hit damages it and consumes the
    // bullet.
    w.bullets.push(Bullet {
        collider_filter: bullet_filter(GROUP_ENEMY),
        damage: 10_000,
        time_to_live_ms: BULLET_TTL_MS,
        position: home_pos,
        velocity: Vec3::zero(),
        lock: None,
        tint: Tint::EnemyBullet,
    });
    w.tick(PlayerInput::idle(), 1);
    assert!(w.bullets.is_empty());
    let after_enemy_hit = w.bodies[hi].health.as_ref().unwrap().current();
    assert_eq!(after_enemy_hit, 300_000 - 10_000);

    // A player-fired bullet on the same target: consumed, but the
    // friendly-fire exemption suppresses all damage.
    let home_pos = w.bodies[hi].position;
    w.bullets.push(Bullet {
        collider_filter: bullet_filter(GROUP_PLAYER),
        damage: 10_000,
        time_to_live_ms: BULLET_TTL_MS,
        position: home_pos,
        velocity: Vec3::zero(),
        lock: None,
        tint: Tint::PlayerBullet,
    });
    w.tick(PlayerInput::idle(), 1);
    assert!(w.bullets.is_empty());
    assert_eq!(w.bodies[hi].health.as_ref().unwrap().current(), after_enemy_hit);
}

#[test]
fn scenario_explosions_spawn_particles_and_expire() {
    let level = Level::easy();
    let mut w = World::new(&level);
    let hi = home_index(&w);
    // A surviving hit on the home planet leaves a small explosion with
    // its ring of ten particles.
    w.bullets.push(Bullet {
        collider_filter: bullet_filter(GROUP_ENEMY),
        damage: 10_000,
        time_to_live_ms: BULLET_TTL_MS,
        position: w.bodies[hi].position,
        velocity: Vec3::zero(),
        lock: None,
        tint: Tint::EnemyBullet,
    });
    w.tick(PlayerInput::idle(), 1);
    assert_eq!(w.explosions.len(), 1);
    assert_eq!(w.explosions[0].particles.len(), 10);
    assert_eq!(w.explosions[0].tint, Tint::EnemyBullet);
    // The effect outlives a couple of ticks and despawns after its
    // 300 ms lifetime.
    w.tick(PlayerInput::idle(), 200);
    assert_eq!(w.explosions.len(), 1);
    w.tick(PlayerInput::idle(), 200);
    assert!(w.explosions.is_empty());
}

#[test]
fn scenario_player_respawns_after_death() {
    let level = Level::easy();
    let mut w = World::new(&level);
    w.player.health.set_dead();
    w.player.velocity = Vec3::new(50_000, 0, 0);
    w.tick(PlayerInput::idle(), 16);
    // Fresh health, zero velocity, oversized grow-in sprite, and a spot
    // inside the respawn disk clear of every body.
    assert_eq!(w.player.health.current(), level.player_health);
    assert_eq!(w.player.velocity, Vec3::zero());
    assert!(w.player.scale_milli > 1000);
    let p = w.player.position;
    let d2 = (p.x as i128).pow(2) + (p.y as i128).pow(2) + (p.z as i128).pow(2);
    assert!(d2 <= 500_000i128 * 500_000i128);
}

#[test]
fn respawn_sampling_terminates_with_seeded_candidates() {
    // Celestial bodies all inside the 500-unit disk; candidates from a
    // fixed-seed linear congruential generator. The bounded search
    // finds a point satisfying both constraints.
    let bodies = vec![
        Obstacle { position: Vec3::zero(), radius: 16_000, group: GROUP_CELESTIAL },
        Obstacle { position: Vec3::new(150_000, 0, 0), radius: 8_000, group: GROUP_CELESTIAL },
        Obstacle { position: Vec3::new(-300_000, 10_000, 0), radius: 8_000, group: GROUP_CELESTIAL },
        Obstacle { position: Vec3::new(0, 450_000, 0), radius: 8_000, group: GROUP_CELESTIAL },
    ];
    let mut seed: u64 = 12345;
    let mut candidates: Vec<Vec3> = Vec::new();
    for _ in 0..64 {
        seed = seed.wrapping_mul(6364136223846793005).wrapping_add(1442695040888963407);
        let x = (seed >> 16) as i64 % 500_001;
        seed = seed.wrapping_mul(6364136223846793005).wrapping_add(1442695040888963407);
        let y = (seed >> 16) as i64 % 500_001;
        let sx = if seed & 1 == 0 { x } else { -x };
        candidates.push(Vec3::new(sx, y, 0));
    }
    let found = find_respawn_from(&candidates, &bodies).expect("a candidate is acceptable");
    assert!(respawn_ok(&found, &bodies));
    let d2 = (found.x as i128).pow(2) + (found.y as i128).pow(2);
    assert!(d2 <= 500_000i128 * 500_000i128);
    for b in &bodies {
        let dx = (found.x - b.position.x) as i128;
        let dy = (found.y - b.position.y) as i128;
        assert!(dx * dx + dy * dy > 70_000_000);
    }
    // The self-drawing variant terminates by construction and, when it
    // finds a point, that point satisfies the same constraints.
    if let Some(p) = find_respawn_point(&bodies, 1000) {
        assert!(respawn_ok(&p, &bodies));
    } else {
        panic!("rejection sampling found no point in a thousand draws");
    }
}

#[test]
fn scenario_enemies_spawn_on_cadence() {
    let level = Level::easy();
    let mut w = World::new(&level);
    // Five seconds of ticks: the repeating timer fires exactly once.
    for _ in 0..5 {
        w.tick(PlayerInput::idle(), 1000);
    }
    assert_eq!(w.enemies.len(), 1);
    // The newcomer sits on the spawn ring, within the map circle bound
    // enforced by kinematics.
    let e = &w.enemies[0];
    let d2 = (e.position.x as i128).pow(2) + (e.position.y as i128).pow(2);
    assert!(d2 <= 512_000i128 * 512_000i128);
}

#[test]
fn scenario_final_wave_spawns_once() {
    let level = Level::easy();
    let mut w = World::new(&level);
    let hi = home_index(&w);
    // Less than one second of the 30 s orbit remains (progress 0.97,
    // 900 ms left): the final wave of six distractors arrives, exactly
    // once, and the run is not yet over.
    w.bodies[hi].orbit.as_mut().unwrap().orbit_progress_micro = 970_000;
    w.tick(PlayerInput::idle(), 1);
    assert_eq!(w.state, GameState::Running);
    assert_eq!(w.enemies.len(), 6);
    assert!(w.spawner.spawned_final_wave);
    for e in &w.enemies {
        assert_eq!(e.enemy.damage_multiplier_milli, 0);
    }
    w.tick(PlayerInput::idle(), 1);
    assert_eq!(w.enemies.len(), 6);
}
