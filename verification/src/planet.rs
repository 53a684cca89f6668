//! Scripted planetary orbits.
//!
//! A planet is not gravity-simulated: its angular position is its orbit
//! progress (scale `MICRO`, one full revolution per unit) times a full
//! turn, around the origin. Progress grows by `dt / orbit_time` each
//! tick and saturates at `PROGRESS_LIM` (a thousand revolutions), far
//! beyond anything a run reaches.

use vstd::prelude::*;

use crate::fixed::{mul_div, spec_mul_div, MICRO, WORLD_LIM};
use crate::kinematics::valid_dt;
use crate::trig::{angle_mod, cos_units, sin_units, spec_angle_mod, spec_cos, spec_sin, ANGLE_TAU,
    TRIG_ONE};
use crate::vec3::{lemma_mul_le, Vec3};

verus! {

/// Saturation bound on orbit progress (scale `MICRO`).
pub const PROGRESS_LIM: i64 = 1_000_000_000;

/// The scripted orbit of a planet.
#[derive(Clone, Copy, Debug)]
pub struct Planet {
    /// Distance from the origin, in milli-units.
    pub orbit_radius: i64,
    /// Time of one full revolution, in milliseconds.
    pub orbit_time_ms: i64,
    /// Angular progress: `MICRO` is one full revolution.
    pub orbit_progress_micro: i64,
}

impl Planet {
    pub open spec fn wf(self) -> bool {
        &&& 0 <= self.orbit_radius <= WORLD_LIM
        &&& 0 < self.orbit_time_ms <= 1_000_000_000
        &&& 0 <= self.orbit_progress_micro <= PROGRESS_LIM
    }

    pub fn new(orbit_radius: i64, orbit_time_ms: i64, orbit_progress_micro: i64) -> (r: Planet)
        requires
            0 <= orbit_radius <= WORLD_LIM,
            0 < orbit_time_ms <= 1_000_000_000,
            0 <= orbit_progress_micro <= PROGRESS_LIM,
        ensures
            r == (Planet { orbit_radius, orbit_time_ms, orbit_progress_micro }),
            r.wf(),
    {
        Planet { orbit_radius, orbit_time_ms, orbit_progress_micro }
    }

    /// Progress after one tick: `dt / orbit_time` more of a revolution,
    /// saturating at `PROGRESS_LIM`.
    pub open spec fn spec_advanced(self, dt_ms: int) -> Planet {
        let delta = dt_ms * (MICRO as int) / (self.orbit_time_ms as int);
        let p = self.orbit_progress_micro + delta;
        let p1 = if p > PROGRESS_LIM {
            PROGRESS_LIM as int
        } else {
            p
        };
        Planet { orbit_progress_micro: p1 as i64, ..self }
    }

    /// Advance the orbit by one tick.
    pub fn advance(&mut self, dt_ms: i64)
        requires
            old(self).wf(),
            valid_dt(dt_ms as int),
        ensures
            *final(self) == old(self).spec_advanced(dt_ms as int),
            final(self).wf(),
            final(self).orbit_progress_micro >= old(self).orbit_progress_micro,
    {
        proof {
            assert(0 <= (dt_ms as int) * (MICRO as int) <= 1_000_000_000) by (nonlinear_arith)
                requires
                    0 <= dt_ms <= 1000,
                    MICRO == 1_000_000,
            ;
            assert(0 <= (dt_ms as int) * (MICRO as int) / (self.orbit_time_ms as int) <= (
            dt_ms as int) * (MICRO as int)) by (nonlinear_arith)
                requires
                    0 <= (dt_ms as int) * (MICRO as int),
                    self.orbit_time_ms >= 1,
            ;
        }
        let delta = dt_ms * MICRO / self.orbit_time_ms;
        let p = self.orbit_progress_micro + delta;
        self.orbit_progress_micro = if p > PROGRESS_LIM {
            PROGRESS_LIM
        } else {
            p
        };
    }

    /// The angle of the planet on its ring, in angle units.
    pub open spec fn spec_angle(self) -> int {
        spec_angle_mod(
            spec_mul_div(self.orbit_progress_micro as int, ANGLE_TAU as int, MICRO as int),
        )
    }

    /// Where the planet stands: `progress` of a full turn around the
    /// origin, at its orbit radius.
    pub open spec fn spec_position(self) -> Vec3 {
        let a = self.spec_angle();
        Vec3 {
            x: spec_mul_div(spec_cos(a), self.orbit_radius as int, TRIG_ONE as int) as i64,
            y: spec_mul_div(spec_sin(a), self.orbit_radius as int, TRIG_ONE as int) as i64,
            z: 0 as i64,
        }
    }

    /// Compute the planet's current position.
    pub fn position(&self) -> (r: Vec3)
        requires
            self.wf(),
        ensures
            r == self.spec_position(),
            r.wf(),
            r.bounded_by(self.orbit_radius as int),
    {
        proof {
            lemma_mul_le(
                self.orbit_progress_micro as int,
                ANGLE_TAU as int,
                PROGRESS_LIM as int,
                ANGLE_TAU as int,
            );
            crate::fixed::lemma_mul_div_bounds(
                self.orbit_progress_micro as int,
                ANGLE_TAU as int,
                MICRO as int,
            );
        }
        let raw_angle = mul_div(self.orbit_progress_micro, ANGLE_TAU, MICRO);
        proof {
            assert(crate::fixed::abs_i(raw_angle as int) <= 1_000_000_000) by (nonlinear_arith)
                requires
                    crate::fixed::abs_i(raw_angle as int) * (MICRO as int) <= (
                    PROGRESS_LIM as int) * (ANGLE_TAU as int),
                    MICRO == 1_000_000,
                    PROGRESS_LIM == 1_000_000_000,
                    ANGLE_TAU == 6284,
            ;
        }
        let a = angle_mod(raw_angle);
        let c = cos_units(a);
        let s = sin_units(a);
        proof {
            crate::ship::lemma_fwd_scale_fits(c as int, self.orbit_radius as int,
                TRIG_ONE as int, self.orbit_radius as int);
            crate::ship::lemma_fwd_scale_fits(s as int, self.orbit_radius as int,
                TRIG_ONE as int, self.orbit_radius as int);
        }
        Vec3 {
            x: mul_div(c, self.orbit_radius, TRIG_ONE),
            y: mul_div(s, self.orbit_radius, TRIG_ONE),
            z: 0,
        }
    }
}

} // verus!
