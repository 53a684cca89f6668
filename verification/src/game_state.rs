//! The run's finite state machine: `Running` until either the home
//! planet completes its orbit alive (`GameWon`) or its health reaches
//! zero (`GameOver`). Both terminal states are absorbing: once the
//! state leaves `Running`, the end check never fires again.

use vstd::prelude::*;

use crate::fixed::MICRO;
use crate::kinematics::valid_dt;
use crate::vec3::Vec3;

verus! {

#[derive(Clone, Copy, Debug, PartialEq, Eq, Structural, Default)]
pub enum GameState {
    #[default]
    Running,
    GameWon,
    GameOver,
}

/// The next game state, given the home planet's remaining health and
/// orbit progress. Losing takes priority over winning: a home planet
/// destroyed on the very tick its orbit completes still loses the run.
pub open spec fn spec_check_end(
    state: GameState,
    home_health_current: int,
    progress_micro: int,
) -> GameState {
    if state != GameState::Running {
        state
    } else if home_health_current <= 0 {
        GameState::GameOver
    } else if progress_micro >= MICRO {
        GameState::GameWon
    } else {
        GameState::Running
    }
}

/// Evaluate the win/lose conditions. The guards make the machine's
/// transitions one-way: a terminal state never changes again.
pub fn check_end(state: GameState, home_health_current: i64, progress_micro: i64) -> (r: GameState)
    ensures
        r == spec_check_end(state, home_health_current as int, progress_micro as int),
        state != GameState::Running ==> r == state,
        state == GameState::Running && home_health_current <= 0 ==> r == GameState::GameOver,
        state == GameState::Running && home_health_current > 0 && progress_micro >= MICRO ==> r
            == GameState::GameWon,
{
    if state != GameState::Running {
        state
    } else if home_health_current <= 0 {
        GameState::GameOver
    } else if progress_micro >= MICRO {
        GameState::GameWon
    } else {
        GameState::Running
    }
}

/// Law: the state machine only moves forward. Whatever the inputs, the
/// two terminal states map to themselves, and nothing ever maps back to
/// `Running` from a terminal state.
pub proof fn lemma_state_machine_one_way(state: GameState, health: int, progress: int)
    ensures
        state != GameState::Running ==> spec_check_end(state, health, progress) == state,
        spec_check_end(state, health, progress) == GameState::Running ==> state
            == GameState::Running,
{
}

/// The one-shot victory laser: for one second after the win, the host
/// draws a beam from the home planet to each enemy's last position.
/// The timer only runs down, so the effect cannot replay.
pub struct HomeLaser {
    /// Milliseconds of the effect still to play; zero when inactive.
    pub remaining_ms: i64,
    /// Last known positions of the enemies the win destroyed.
    pub targets: Vec<Vec3>,
}

/// Duration of the victory laser, in milliseconds.
pub const HOME_LASER_MS: i64 = 1000;

impl HomeLaser {
    pub open spec fn wf(self) -> bool {
        0 <= self.remaining_ms <= HOME_LASER_MS
    }

    /// Inactive, with no recorded targets.
    pub fn new() -> (r: HomeLaser)
        ensures
            r.remaining_ms == 0,
            r.targets@.len() == 0,
            r.wf(),
    {
        HomeLaser { remaining_ms: 0, targets: Vec::new() }
    }

    /// Run the effect down; say whether it is still showing this tick.
    pub fn tick(&mut self, dt_ms: i64) -> (active: bool)
        requires
            old(self).wf(),
            valid_dt(dt_ms as int),
        ensures
            active == (old(self).remaining_ms > 0),
            final(self).remaining_ms == if old(self).remaining_ms >= dt_ms {
                old(self).remaining_ms - dt_ms
            } else {
                0int
            },
            final(self).targets == old(self).targets,
            final(self).wf(),
    {
        let active = self.remaining_ms > 0;
        if self.remaining_ms >= dt_ms {
            self.remaining_ms = self.remaining_ms - dt_ms;
        } else {
            self.remaining_ms = 0;
        }
        active
    }
}

/// How long the quit key must be held before the run is abandoned, in
/// milliseconds.
pub const QUIT_HOLD_MS: i64 = 1000;

/// The hold-to-quit confirmation: while the quit key is held the
/// countdown runs; releasing it resets the countdown; holding it to the
/// end fires the quit, once.
#[derive(Clone, Copy, Debug)]
pub struct QuitHold {
    /// Milliseconds of holding still required.
    pub remaining_ms: i64,
}

impl QuitHold {
    pub open spec fn wf(self) -> bool {
        0 <= self.remaining_ms <= QUIT_HOLD_MS
    }

    pub fn new() -> (r: QuitHold)
        ensures
            r.remaining_ms == QUIT_HOLD_MS,
            r.wf(),
    {
        QuitHold { remaining_ms: QUIT_HOLD_MS }
    }

    /// One tick of the confirmation: quitting fires exactly on the tick
    /// that exhausts the countdown while the key is held, once — an
    /// exhausted hold stays quiet until a release rearms it.
    pub fn update(&mut self, held: bool, dt_ms: i64) -> (quit: bool)
        requires
            old(self).wf(),
            valid_dt(dt_ms as int),
        ensures
            final(self).wf(),
            !held ==> (final(self).remaining_ms == QUIT_HOLD_MS && !quit),
            held ==> quit == (0 < old(self).remaining_ms <= dt_ms),
            held ==> final(self).remaining_ms == if old(self).remaining_ms <= dt_ms {
                0int
            } else {
                old(self).remaining_ms - dt_ms
            },
    {
        if held {
            if self.remaining_ms == 0 {
                false
            } else if self.remaining_ms <= dt_ms {
                self.remaining_ms = 0;
                true
            } else {
                self.remaining_ms = self.remaining_ms - dt_ms;
                false
            }
        } else {
            self.remaining_ms = QUIT_HOLD_MS;
            false
        }
    }

    /// Fraction of the hold still ahead, in thousandths, for the host's
    /// progress bar.
    pub fn fraction_remaining_milli(&self) -> (r: i64)
        requires
            self.wf(),
        ensures
            r == (self.remaining_ms as int) * 1000 / (QUIT_HOLD_MS as int),
            0 <= r <= 1000,
    {
        self.remaining_ms * 1000 / QUIT_HOLD_MS
    }
}

} // verus!
