//! The orbit-progress milestones the host shows next to the home
//! planet: a label at every quarter of the orbit, each shown once.

use vstd::prelude::*;

use crate::fixed::MICRO;
use crate::planet::PROGRESS_LIM;
use crate::vec3::Vec3;

verus! {

/// The milestone to display this tick, if one is due: the pending
/// percentage once the orbit progress has reached it.
pub open spec fn spec_milestone_due(progress_micro: int, next_percent: int) -> bool {
    progress_micro * 100 / (MICRO as int) >= next_percent && next_percent <= 100
}

/// Check for a due milestone and move the threshold up by a quarter.
/// Returns the percentage to display, at most once per quarter.
pub fn milestone_update(next_percent: &mut i64, progress_micro: i64) -> (r: Option<i64>)
    requires
        0 <= *old(next_percent) <= 200,
        0 <= progress_micro <= PROGRESS_LIM,
    ensures
        spec_milestone_due(progress_micro as int, *old(next_percent) as int) ==> (r == Some(
            *old(next_percent),
        ) && *final(next_percent) == *old(next_percent) + 25),
        !spec_milestone_due(progress_micro as int, *old(next_percent) as int) ==> (r is None
            && *final(next_percent) == *old(next_percent)),
        0 <= *final(next_percent) <= 225,
{
    proof {
        assert(0 <= (progress_micro as int) * 100 <= 100_000_000_000) by (nonlinear_arith)
            requires
                0 <= progress_micro <= 1_000_000_000,
        ;
        assert(0 <= (progress_micro as int) * 100 / (MICRO as int) <= (progress_micro as int)
            * 100) by (nonlinear_arith)
            requires
                0 <= (progress_micro as int) * 100,
                MICRO == 1_000_000,
        ;
    }
    if progress_micro * 100 / MICRO >= *next_percent && *next_percent <= 100 {
        let shown = *next_percent;
        *next_percent = *next_percent + 25;
        Some(shown)
    } else {
        None
    }
}

/// Where the milestone label floats: fifty units outward of the home
/// planet along its own direction from the origin (the planet's own
/// position when it stands at the origin itself).
pub open spec fn spec_milestone_label(home_pos: Vec3) -> Vec3 {
    if home_pos.spec_norm_sq() == 0 {
        home_pos
    } else {
        home_pos.spec_add_clamped(home_pos.spec_rescaled(50_000))
    }
}

/// Compute the milestone label's position.
pub fn milestone_label_position(home_pos: &Vec3) -> (r: Vec3)
    requires
        home_pos.wf(),
    ensures
        r == spec_milestone_label(*home_pos),
        r.wf(),
{
    let n = home_pos.norm_sq();
    if n == 0 {
        *home_pos
    } else {
        let outward = home_pos.rescale_to(50_000);
        home_pos.add_clamped(&outward)
    }
}

} // verus!
