//! Kinematics, gravity and orbit behaviour.

use home_defense::fixed::MICRO;
use home_defense::gravity::{force_magnitude, gravity_kick, MAX_FORCE};
use home_defense::kinematics::{apply_velocity, cap_velocity, MAP_RADIUS};
use home_defense::planet::Planet;
use home_defense::vec3::Vec3;

fn norm_sq(v: &Vec3) -> i128 {
    (v.x as i128) * (v.x as i128) + (v.y as i128) * (v.y as i128) + (v.z as i128) * (v.z as i128)
}

#[test]
fn speed_cap_rescales_to_cap() {
    // 300 u/s along +x, capped at 180 u/s: exactly the cap remains.
    let v = Vec3::new(300_000, 0, 0);
    let capped = cap_velocity(&v, 180_000);
    assert_eq!(capped.x, 180_000);
    assert_eq!(capped.y, 0);
}

#[test]
fn speed_cap_invariant_many_directions() {
    let cap: i64 = 180_000;
    let samples = [
        Vec3::new(300_000, 0, 0),
        Vec3::new(200_000, 200_000, 0),
        Vec3::new(-500_000, 123_456, -7),
        Vec3::new(179_999, 0, 0),
        Vec3::new(0, 0, 0),
    ];
    for v in samples {
        let (_, out) = apply_velocity(&Vec3::zero(), &v, Some(cap), false, 16);
        assert!(norm_sq(&out) <= (cap as i128) * (cap as i128));
    }
}

#[test]
fn slow_velocity_is_untouched_by_cap() {
    let v = Vec3::new(100_000, 50_000, 0);
    let (p, out) = apply_velocity(&Vec3::new(1000, 2000, 0), &v, Some(180_000), false, 1000);
    assert_eq!(out, v);
    // One second of integration adds the velocity itself.
    assert_eq!(p, Vec3::new(101_000, 52_000, 0));
}

#[test]
fn boundary_containment() {
    // A keep-in-map entity pushed past the world circle is clamped
    // exactly onto it.
    let pos = Vec3::new(600_000, 0, 0);
    let (p, _) = apply_velocity(&pos, &Vec3::zero(), None, true, 16);
    assert_eq!(p.x, MAP_RADIUS);
    assert_eq!(p.y, 0);
    assert!(norm_sq(&p) <= (MAP_RADIUS as i128) * (MAP_RADIUS as i128));
}

#[test]
fn boundary_containment_with_motion() {
    // Flying outward at the rim: the position stays on the circle and
    // the outward velocity component is absorbed.
    let pos = Vec3::new(511_000, 0, 0);
    let vel = Vec3::new(180_000, 0, 0);
    let (p, v) = apply_velocity(&pos, &vel, Some(180_000), true, 1000);
    assert!(norm_sq(&p) <= (MAP_RADIUS as i128) * (MAP_RADIUS as i128));
    assert!(norm_sq(&v) <= 180_000i128 * 180_000i128);
    assert!(v.x < vel.x);
}

#[test]
fn gravity_force_bound() {
    // Point blank: the inverse square blows up and the cap holds it.
    assert_eq!(force_magnitude(1000, 200_000_000, 1), MAX_FORCE);
    assert_eq!(force_magnitude(100_000, 1_000_000_000, 1), MAX_FORCE);
    // At 300 units from a 100_000 mass: 100000/300^2 = 1.111 u/s^2.
    assert_eq!(force_magnitude(1000, 100_000_000, 90_000_000_000), 1111);
    // Never negative, never above the cap, for a spread of distances.
    let mut d2: i64 = 1;
    while d2 < 1_000_000_000_000 {
        let f = force_magnitude(10_000, 200_000_000, d2);
        assert!(0 <= f && f <= MAX_FORCE);
        d2 *= 7;
    }
}

#[test]
fn gravity_pulls_toward_body() {
    let obj = Vec3::zero();
    let vel = Vec3::zero();
    let body = Vec3::new(100_000, 0, 0);
    // mass 100_000 at 100 units: force 10 u/s^2; over one second the
    // velocity gains 10 u/s toward the body.
    let v = gravity_kick(&obj, &vel, 1000, &body, 100_000_000, 1000);
    assert_eq!(v.x, 10_000);
    assert_eq!(v.y, 0);
}

#[test]
fn gravity_ignores_coincident_body() {
    let obj = Vec3::new(5, 5, 0);
    let vel = Vec3::new(1, 2, 3);
    let v = gravity_kick(&obj, &vel, 1000, &obj, 200_000_000, 1000);
    assert_eq!(v, vel);
}

#[test]
fn orbit_progress_advances_by_dt_over_period() {
    let mut p = Planet::new(300_000, 30_000, 0);
    p.advance(30);
    // 30 ms of a 30 s orbit: one thousandth of a revolution.
    assert_eq!(p.orbit_progress_micro, 1000);
    p.advance(30);
    assert_eq!(p.orbit_progress_micro, 2000);
}

#[test]
fn orbit_position_quarters() {
    // progress 0: on the +x axis at the orbit radius.
    let p0 = Planet::new(300_000, 30_000, 0);
    let at0 = p0.position();
    assert_eq!(at0.x, 300_000);
    assert_eq!(at0.y, 0);
    // progress 1/4 turn: on the +y axis.
    let p25 = Planet::new(300_000, 30_000, 250_000);
    let at25 = p25.position();
    assert_eq!(at25.y, 300_000);
    assert_eq!(at25.x, 0);
    // progress 1/2 turn: on the -x axis.
    let p50 = Planet::new(300_000, 30_000, 500_000);
    let at50 = p50.position();
    assert_eq!(at50.x, -300_000);
    assert_eq!(at50.y, 0);
}

#[test]
fn orbit_progress_saturates() {
    let mut p = Planet::new(1000, 1, MICRO);
    for _ in 0..5 {
        p.advance(1000);
    }
    assert!(p.orbit_progress_micro <= 1_000_000_000);
}
