//! Unit tests of the scalar toolbox, health, colliders and level data.

use home_defense::collider::{bullet_filter, celestial_exempt, groups_match, GROUP_CELESTIAL,
    GROUP_ENEMY, GROUP_PLAYER};
use home_defense::events::{explosion_volume_milli, particle_velocity, ExplosionKind};
use home_defense::fixed::{clamp_world, decay_pow, mul_div, sqrt_ceil, sqrt_floor, MICRO,
    WORLD_LIM};
use home_defense::health::Health;
use home_defense::level::Level;
use home_defense::progress::milestone_update;
use home_defense::trig::{angle_mod, cos_units, sin_units, ANGLE_HALF_PI, ANGLE_PI, ANGLE_TAU,
    TRIG_ONE};

#[test]
fn sqrt_floor_exact_squares() {
    assert_eq!(sqrt_floor(0), 0);
    assert_eq!(sqrt_floor(1), 1);
    assert_eq!(sqrt_floor(15), 3);
    assert_eq!(sqrt_floor(16), 4);
    assert_eq!(sqrt_floor(1_000_000), 1000);
    assert_eq!(sqrt_floor(i64::MAX), 3_037_000_499);
}

#[test]
fn sqrt_ceil_rounds_up() {
    assert_eq!(sqrt_ceil(0), 0);
    assert_eq!(sqrt_ceil(1), 1);
    assert_eq!(sqrt_ceil(2), 2);
    assert_eq!(sqrt_ceil(16), 4);
    assert_eq!(sqrt_ceil(17), 5);
}

#[test]
fn mul_div_truncates_toward_zero() {
    assert_eq!(mul_div(7, 3, 2), 10);
    assert_eq!(mul_div(-7, 3, 2), -10);
    assert_eq!(mul_div(0, 5, 9), 0);
}

#[test]
fn clamp_world_saturates() {
    assert_eq!(clamp_world(123), 123);
    assert_eq!(clamp_world(WORLD_LIM + 5), WORLD_LIM);
    assert_eq!(clamp_world(-WORLD_LIM - 5), -WORLD_LIM);
}

#[test]
fn decay_pow_basics() {
    assert_eq!(decay_pow(900_000, 0), MICRO);
    assert_eq!(decay_pow(MICRO, 50), MICRO);
    let d = decay_pow(900_000, 3);
    assert!(0 < d && d < MICRO);
}

#[test]
fn trig_anchor_values() {
    assert_eq!(sin_units(0), 0);
    assert_eq!(sin_units(ANGLE_HALF_PI), TRIG_ONE);
    assert_eq!(sin_units(ANGLE_PI), 0);
    assert_eq!(cos_units(0), TRIG_ONE);
    // A quarter turn past zero, cosine is the sine at a half turn: zero.
    assert_eq!(cos_units(ANGLE_HALF_PI), 0);
    // Reduction brings any angle into one turn.
    assert_eq!(angle_mod(-1), ANGLE_TAU - 1);
    assert_eq!(angle_mod(ANGLE_TAU + 7), 7);
}

#[test]
fn trig_stays_in_scale() {
    let mut a: i64 = 0;
    while a < ANGLE_TAU {
        let s = sin_units(a);
        let c = cos_units(a);
        assert!(-TRIG_ONE <= s && s <= TRIG_ONE);
        assert!(-TRIG_ONE <= c && c <= TRIG_ONE);
        a += 13;
    }
}

#[test]
fn health_damage_clamps_at_zero() {
    let mut h = Health::new(300_000);
    assert_eq!(h.max(), 300_000);
    assert_eq!(h.current(), 300_000);
    h.damage(100_000);
    assert_eq!(h.current(), 200_000);
    h.damage(250_000);
    assert_eq!(h.current(), 0);
    h.damage(10_000);
    assert_eq!(h.current(), 0);
    assert_eq!(h.max(), 300_000);
}

#[test]
fn health_long_damage_sequence_never_leaves_range() {
    let mut h = Health::new(50_000);
    let hits = [10_000i64, 0, 49_999, 1, 30_000, 50_000, 2];
    for d in hits {
        h.damage(d);
        assert!(0 <= h.current() && h.current() <= h.max());
    }
    assert_eq!(h.current(), 0);
}

#[test]
fn health_fraction_and_set_dead() {
    let mut h = Health::new(400_000);
    assert_eq!(h.fraction_milli(), 1000);
    h.damage(100_000);
    assert_eq!(h.fraction_milli(), 750);
    h.set_dead();
    assert_eq!(h.current(), 0);
    assert_eq!(h.fraction_milli(), 0);
    let z = Health::new(0);
    assert_eq!(z.fraction_milli(), 0);
}

#[test]
fn bullet_filter_is_complement() {
    assert_eq!(bullet_filter(GROUP_PLAYER), !GROUP_PLAYER);
    assert_eq!(bullet_filter(GROUP_ENEMY), !GROUP_ENEMY);
    // A faction's bullet never matches its own group …
    assert!(!groups_match(bullet_filter(GROUP_PLAYER), GROUP_PLAYER));
    // … and matches everything else.
    assert!(groups_match(bullet_filter(GROUP_PLAYER), GROUP_ENEMY));
    assert!(groups_match(bullet_filter(GROUP_PLAYER), GROUP_CELESTIAL));
    assert!(groups_match(bullet_filter(GROUP_ENEMY), GROUP_PLAYER));
}

#[test]
fn celestial_exemption_bits() {
    // Player-faction bullets (filter without the player bit) spare
    // celestial bodies; enemy-faction bullets (filter with it) do not.
    assert!(celestial_exempt(bullet_filter(GROUP_PLAYER), GROUP_CELESTIAL));
    assert!(!celestial_exempt(bullet_filter(GROUP_ENEMY), GROUP_CELESTIAL));
    // Nothing is exempt on a non-celestial target.
    assert!(!celestial_exempt(bullet_filter(GROUP_PLAYER), GROUP_ENEMY));
}

#[test]
fn level_presets() {
    let e = Level::easy();
    assert_eq!(e.home_orbit_time_ms, 30_000);
    assert_eq!(e.home_health, 300_000);
    assert_eq!(e.player_health, 50_000);
    assert_eq!(e.enemy_spawn_interval_ms, 5_000);
    assert_eq!(e.enemy_force_to_home_prob_milli, 100);
    let m = Level::medium();
    assert_eq!(m.home_orbit_time_ms, 60_000);
    assert_eq!(m.home_health, 400_000);
    let h = Level::hard();
    assert_eq!(h.home_orbit_time_ms, 90_000);
    assert_eq!(h.enemy_spawn_interval_ms, 4_000);
}

#[test]
fn milestones_fire_once_per_quarter() {
    let mut next: i64 = 25;
    // Below the threshold: nothing due.
    assert_eq!(milestone_update(&mut next, 200_000), None);
    assert_eq!(next, 25);
    // Past a quarter: the pending percentage shows once.
    assert_eq!(milestone_update(&mut next, 260_000), Some(25));
    assert_eq!(next, 50);
    assert_eq!(milestone_update(&mut next, 260_000), None);
    // The full-orbit milestone is the last one.
    next = 100;
    assert_eq!(milestone_update(&mut next, 1_000_000), Some(100));
    assert_eq!(next, 125);
    assert_eq!(milestone_update(&mut next, 1_000_000), None);
}

#[test]
fn explosion_volume_halves_per_event() {
    assert_eq!(explosion_volume_milli(ExplosionKind::Large, 0), 2000);
    assert_eq!(explosion_volume_milli(ExplosionKind::Large, 1), 1000);
    assert_eq!(explosion_volume_milli(ExplosionKind::Large, 2), 500);
    assert_eq!(explosion_volume_milli(ExplosionKind::Small, 0), 500);
    assert_eq!(explosion_volume_milli(ExplosionKind::Small, 3), 62);
}

#[test]
fn explosion_particles_fan_out() {
    // First particle flies along +x at the kind's initial speed.
    let v0 = particle_velocity(ExplosionKind::Small, 0);
    assert_eq!(v0.x, 64_000);
    assert_eq!(v0.y, 0);
    // Particles a half fan apart fly in roughly opposite directions.
    let v5 = particle_velocity(ExplosionKind::Small, 5);
    assert!(v5.x < -63_000);
}
