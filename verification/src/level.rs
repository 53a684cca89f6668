//! Per-run difficulty configuration.

use vstd::prelude::*;

use crate::health::{Health, HEALTH_LIM};

verus! {

/// Immutable level parameters, fixed when a run starts.
#[derive(Clone, Copy, Debug)]
pub struct Level {
    /// Time the home planet needs for its full orbit — the win timer —
    /// in milliseconds.
    pub home_orbit_time_ms: i64,
    /// Starting health of the home planet (milli hit points).
    pub home_health: i64,
    /// Starting (and respawn) health of the player.
    pub player_health: i64,
    /// Starting health of each enemy.
    pub enemy_health: i64,
    /// Damage of one player bullet.
    pub player_damage: i64,
    /// Base damage of one enemy bullet.
    pub enemy_damage: i64,
    /// Seconds' worth of milliseconds between enemy spawns.
    pub enemy_spawn_interval_ms: i64,
    /// Probability (thousandths) that an enemy is forced to target the
    /// home planet outright.
    pub enemy_force_to_home_prob_milli: i64,
}

impl Level {
    pub open spec fn wf(self) -> bool {
        &&& 0 < self.home_orbit_time_ms <= 1_000_000_000
        &&& 0 <= self.home_health <= HEALTH_LIM
        &&& 0 <= self.player_health <= HEALTH_LIM
        &&& 0 <= self.enemy_health <= HEALTH_LIM
        &&& 0 <= self.player_damage <= HEALTH_LIM
        &&& 0 <= self.enemy_damage <= HEALTH_LIM
        &&& 0 < self.enemy_spawn_interval_ms <= 1_000_000_000
        &&& 0 <= self.enemy_force_to_home_prob_milli <= 1000
    }

    pub fn easy() -> (r: Level)
        ensures
            r.wf(),
            r == (Level {
                home_orbit_time_ms: 30_000 as i64,
                home_health: 300_000 as i64,
                player_health: 50_000 as i64,
                enemy_health: 10_000 as i64,
                player_damage: 10_000 as i64,
                enemy_damage: 10_000 as i64,
                enemy_spawn_interval_ms: 5_000 as i64,
                enemy_force_to_home_prob_milli: 100 as i64,
            }),
    {
        Level {
            home_orbit_time_ms: 30_000,
            home_health: 300_000,
            player_health: 50_000,
            enemy_health: 10_000,
            player_damage: 10_000,
            enemy_damage: 10_000,
            enemy_spawn_interval_ms: 5_000,
            enemy_force_to_home_prob_milli: 100,
        }
    }

    pub fn medium() -> (r: Level)
        ensures
            r.wf(),
            r == (Level {
                home_orbit_time_ms: 60_000 as i64,
                home_health: 400_000 as i64,
                player_health: 30_000 as i64,
                enemy_health: 20_000 as i64,
                player_damage: 10_000 as i64,
                enemy_damage: 10_000 as i64,
                enemy_spawn_interval_ms: 5_000 as i64,
                enemy_force_to_home_prob_milli: 150 as i64,
            }),
    {
        Level {
            home_orbit_time_ms: 60_000,
            home_health: 400_000,
            player_health: 30_000,
            enemy_health: 20_000,
            player_damage: 10_000,
            enemy_damage: 10_000,
            enemy_spawn_interval_ms: 5_000,
            enemy_force_to_home_prob_milli: 150,
        }
    }

    pub fn hard() -> (r: Level)
        ensures
            r.wf(),
            r == (Level {
                home_orbit_time_ms: 90_000 as i64,
                home_health: 500_000 as i64,
                player_health: 20_000 as i64,
                enemy_health: 20_000 as i64,
                player_damage: 10_000 as i64,
                enemy_damage: 10_000 as i64,
                enemy_spawn_interval_ms: 4_000 as i64,
                enemy_force_to_home_prob_milli: 200 as i64,
            }),
    {
        Level {
            home_orbit_time_ms: 90_000,
            home_health: 500_000,
            player_health: 20_000,
            enemy_health: 20_000,
            player_damage: 10_000,
            enemy_damage: 10_000,
            enemy_spawn_interval_ms: 4_000,
            enemy_force_to_home_prob_milli: 200,
        }
    }

    /// A fresh health pool of the home planet's configured size.
    pub fn new_home_health(&self) -> (r: Health)
        requires
            self.wf(),
        ensures
            r.wf(),
            r.spec_max() == self.home_health,
            r.spec_current() == self.home_health,
    {
        Health::new(self.home_health)
    }

    /// A fresh health pool of the player's configured size.
    pub fn new_player_health(&self) -> (r: Health)
        requires
            self.wf(),
        ensures
            r.wf(),
            r.spec_max() == self.player_health,
            r.spec_current() == self.player_health,
    {
        Health::new(self.player_health)
    }

    /// A fresh health pool of an enemy's configured size.
    pub fn new_enemy_health(&self) -> (r: Health)
        requires
            self.wf(),
        ensures
            r.wf(),
            r.spec_max() == self.enemy_health,
            r.spec_current() == self.enemy_health,
    {
        Health::new(self.enemy_health)
    }
}

} // verus!
