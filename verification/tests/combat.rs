//! Ship weapons, bullet flight and hit resolution.

use home_defense::bullet::{hit_damage, homing_blend, scan_hit, update_flight, Bullet, Obstacle,
    BULLET_RANGE};
use home_defense::collider::{bullet_filter, GROUP_CELESTIAL, GROUP_ENEMY, GROUP_PLAYER};
use home_defense::enemy::{ai_commands, resolve_target, ship_hits_any_body, target_params, Enemy,
    EnemySpawner, EnemyTarget};
use home_defense::events::Tint;
use home_defense::game_state::QuitHold;
use home_defense::ship::{update_space_ship, SpaceShip, Steering, BULLET_TTL_MS, MUZZLE_SPEED};
use home_defense::vec3::Vec3;

fn test_bullet(filter: u32, position: Vec3, velocity: Vec3) -> Bullet {
    Bullet {
        collider_filter: filter,
        damage: 10_000,
        time_to_live_ms: BULLET_TTL_MS,
        position,
        velocity,
        lock: None,
        tint: Tint::PlayerBullet,
    }
}

#[test]
fn one_bullet_per_fire_command() {
    let mut ship = SpaceShip::new(0);
    ship.shoot = Some(10_000);
    let pos = Vec3::zero();
    let vel = Vec3::zero();
    let (_, spawn) = update_space_ship(&mut ship, GROUP_PLAYER, &pos, &vel, 16);
    // Exactly one bullet, carrying the commanded damage; the command is
    // drained.
    let spawn = spawn.expect("a pending fire command spawns a bullet");
    assert_eq!(spawn.damage, 10_000);
    assert_eq!(ship.shoot, None);
    // Holding fire without a new command spawns nothing.
    let (_, again) = update_space_ship(&mut ship, GROUP_PLAYER, &pos, &vel, 16);
    assert!(again.is_none());
}

#[test]
fn muzzle_velocity_and_filter() {
    let mut ship = SpaceShip::new(0);
    ship.shoot = Some(5_000);
    let (_, spawn) = update_space_ship(&mut ship, GROUP_ENEMY, &Vec3::zero(), &Vec3::zero(), 16);
    let spawn = spawn.unwrap();
    // Heading 0 points along +y; the bullet leaves at the muzzle speed,
    // ten units ahead, filtered to everything but the firer's faction.
    assert_eq!(spawn.velocity.y, MUZZLE_SPEED);
    assert_eq!(spawn.velocity.x, 0);
    assert_eq!(spawn.position.y, 10_000);
    assert_eq!(spawn.filter, !GROUP_ENEMY);
    assert_eq!(spawn.ttl_ms, BULLET_TTL_MS);
}

#[test]
fn steering_turns_and_throttle_accelerates() {
    let mut ship = SpaceShip::new(0);
    ship.steering = Steering::Left;
    let (_, _) = update_space_ship(&mut ship, GROUP_PLAYER, &Vec3::zero(), &Vec3::zero(), 100);
    assert_eq!(ship.rotation, 300);
    ship.steering = Steering::Straight;
    ship.throttle = true;
    let (v, _) = update_space_ship(&mut ship, GROUP_PLAYER, &Vec3::zero(), &Vec3::zero(), 1000);
    // One second of 300 u/s^2 thrust, pointed 300 angle units left of
    // +y: mostly +y, a little -x.
    assert!(v.y > 280_000);
    assert!(v.x < 0);
}

#[test]
fn brake_decays_velocity() {
    let mut ship = SpaceShip::new(0);
    ship.brake = true;
    let vel = Vec3::new(100_000, 0, 0);
    let (v, _) = update_space_ship(&mut ship, GROUP_PLAYER, &Vec3::zero(), &vel, 100);
    // Fast ship: drag 0.9 * dt = 9% of the velocity in 100 ms.
    assert_eq!(v.x, 91_000);
    let slow = Vec3::new(20_000, 0, 0);
    ship.brake = true;
    let (v2, _) = update_space_ship(&mut ship, GROUP_PLAYER, &Vec3::zero(), &slow, 100);
    // Slow ship: gentler fraction but of note, 0.99 * dt = 9.9%.
    assert_eq!(v2.x, 18_020);
}

#[test]
fn bullet_expires_by_ttl() {
    let mut b = test_bullet(!GROUP_PLAYER, Vec3::zero(), Vec3::new(1000, 0, 0));
    b.time_to_live_ms = 50;
    assert!(!update_flight(&mut b, None, 16));
    assert!(!update_flight(&mut b, None, 16));
    assert!(!update_flight(&mut b, None, 16));
    // The fourth tick exhausts the countdown.
    assert!(update_flight(&mut b, None, 16));
    assert_eq!(b.time_to_live_ms, 50 - 64);
}

#[test]
fn bullet_expires_by_range() {
    let mut b = test_bullet(!GROUP_PLAYER, Vec3::new(BULLET_RANGE + 1, 0, 0), Vec3::zero());
    assert!(update_flight(&mut b, None, 16));
    let mut inside = test_bullet(!GROUP_PLAYER, Vec3::new(BULLET_RANGE, 0, 0), Vec3::zero());
    assert!(!update_flight(&mut inside, None, 16));
}

#[test]
fn homing_bends_velocity_toward_target() {
    let pos = Vec3::zero();
    let vel = Vec3::new(100_000, 0, 0);
    let target = Vec3::new(0, 200_000, 0);
    let v = homing_blend(&pos, &vel, &target, 16);
    // The blend trades +x speed for +y speed.
    assert!(v.x < 100_000);
    assert!(v.y > 0);
    // A target on top of the bullet leaves it ballistic.
    let same = homing_blend(&pos, &vel, &pos, 16);
    assert_eq!(same, vel);
}

#[test]
fn scan_hit_respects_filter_whatever_the_distance() {
    let obstacles = vec![
        Obstacle { position: Vec3::zero(), radius: 50_000, group: GROUP_PLAYER },
    ];
    // The bullet sits inside the obstacle, but the filter shares no bit:
    // never a hit.
    assert_eq!(scan_hit(&Vec3::zero(), GROUP_ENEMY | GROUP_CELESTIAL, &obstacles), None);
    // With a matching filter the same geometry hits.
    assert_eq!(scan_hit(&Vec3::zero(), GROUP_PLAYER, &obstacles), Some(0));
}

#[test]
fn scan_hit_takes_first_match_only() {
    let obstacles = vec![
        Obstacle { position: Vec3::new(500_000, 0, 0), radius: 1000, group: GROUP_ENEMY },
        Obstacle { position: Vec3::new(0, 0, 0), radius: 10_000, group: GROUP_ENEMY },
        Obstacle { position: Vec3::new(1, 0, 0), radius: 10_000, group: GROUP_ENEMY },
    ];
    // The far first obstacle misses; the first overlapping one wins and
    // the scan stops there.
    assert_eq!(scan_hit(&Vec3::zero(), !GROUP_PLAYER, &obstacles), Some(1));
}

#[test]
fn friendly_fire_exemption_amounts() {
    // Player-faction bullet on a celestial target: zero damage.
    assert_eq!(hit_damage(bullet_filter(GROUP_PLAYER), GROUP_CELESTIAL, 10_000), 0);
    // Enemy-faction bullet on the same target: full damage.
    assert_eq!(hit_damage(bullet_filter(GROUP_ENEMY), GROUP_CELESTIAL, 10_000), 10_000);
    // Anything on a ship: full damage.
    assert_eq!(hit_damage(bullet_filter(GROUP_ENEMY), GROUP_PLAYER, 7_000), 7_000);
}

#[test]
fn enemy_target_choice_is_cached() {
    let mut e = Enemy::new(1000);
    // Draw under the threshold forces the home target.
    let t = resolve_target(&mut e, 50, 100, 1, 1_000_000);
    assert_eq!(t, EnemyTarget::Home);
    // Later draws cannot re-target, whatever they say.
    let t2 = resolve_target(&mut e, 999, 100, 1, 1_000_000);
    assert_eq!(t2, EnemyTarget::Home);

    let mut near_player = Enemy::new(1000);
    let t3 = resolve_target(&mut near_player, 999, 100, 100, 1_000_000);
    assert_eq!(t3, EnemyTarget::Player);
}

#[test]
fn enemy_ai_thresholds() {
    assert_eq!(target_params(EnemyTarget::Player), (100_000, 50_000, 250_000, 500));
    assert_eq!(target_params(EnemyTarget::Home), (300_000, 300_000, 500_000, 1000));
    // Far target dead ahead: throttle on, no steering, fire only once
    // in range.
    let pos = Vec3::zero();
    let target = Vec3::new(0, 400_000, 0);
    let (steer, throttle, brake, fire) = ai_commands(
        &pos, 0, &target, 100_000, 50_000, 250_000, 500, 10_000, 0,
    );
    assert_eq!(steer, Steering::Straight);
    assert!(throttle);
    assert!(!brake);
    assert!(!fire);
    // Close target dead ahead, reload long past: fire, brake.
    let near = Vec3::new(0, 100_000, 0);
    let (_, throttle2, brake2, fire2) = ai_commands(
        &pos, 0, &near, 100_000, 50_000, 250_000, 500, 10_000, 0,
    );
    assert!(!throttle2);
    assert!(!brake2);
    assert!(fire2);
    // Target to the ship's right: steer right.
    let right = Vec3::new(300_000, 10_000, 0);
    let (steer3, _, _, _) = ai_commands(
        &pos, 0, &right, 100_000, 50_000, 250_000, 500, 10_000, 0,
    );
    assert_eq!(steer3, Steering::Right);
}

#[test]
fn ship_body_overlap() {
    let bodies = vec![
        Obstacle { position: Vec3::new(20_000, 0, 0), radius: 8_000, group: GROUP_CELESTIAL },
    ];
    // Ship radius 12 + body radius 8 = 20 units: just touching.
    assert!(ship_hits_any_body(&Vec3::zero(), 12_000, &bodies));
    assert!(!ship_hits_any_body(&Vec3::new(-1000, 0, 0), 12_000, &bodies));
}

#[test]
fn quit_hold_fires_once_and_release_resets() {
    let mut q = QuitHold::new();
    assert!(!q.update(true, 400));
    assert!(!q.update(true, 400));
    // A release starts the whole hold over.
    assert!(!q.update(false, 400));
    assert!(!q.update(true, 999));
    assert!(q.update(true, 16));
    assert_eq!(q.fraction_remaining_milli(), 0);
    // Holding past the firing tick does not fire again …
    assert!(!q.update(true, 500));
    assert!(!q.update(true, 1000));
    // … until a release rearms the confirmation.
    assert!(!q.update(false, 16));
    assert!(q.update(true, 1000));
}

#[test]
fn spawner_cadence() {
    let mut s = EnemySpawner::new(5000);
    assert!(!s.tick(1000, 5000));
    assert!(!s.tick(3999, 5000));
    assert!(s.tick(1, 5000));
    assert_eq!(s.timer_remaining_ms, 5000);
    assert!(!s.spawned_final_wave);
}
