//! Circle colliders and bitmask interaction groups.

use vstd::prelude::*;

use crate::fixed::in_world;

verus! {

/// Group bit of player-owned entities.
pub const GROUP_PLAYER: u32 = 0b1;

/// Group bit of enemy-owned entities.
pub const GROUP_ENEMY: u32 = 0b10;

/// Group bit of celestial bodies (planets and the star).
pub const GROUP_CELESTIAL: u32 = 0b100;

/// A circle collider: radius in milli-units and an interaction bitmask.
#[derive(Clone, Copy, Debug, PartialEq, Eq, Structural)]
pub struct Collider {
    pub radius: i64,
    pub group: u32,
}

impl Collider {
    pub open spec fn wf(self) -> bool {
        0 <= self.radius && in_world(self.radius as int)
    }

    pub fn new(radius: i64, group: u32) -> (r: Collider)
        ensures
            r == (Collider { radius, group }),
    {
        Collider { radius, group }
    }
}

/// A bullet filter matches a collider group when they share a set bit.
pub open spec fn spec_groups_match(filter: u32, group: u32) -> bool {
    filter & group != 0
}

pub fn groups_match(filter: u32, group: u32) -> (r: bool)
    ensures
        r == spec_groups_match(filter, group),
{
    filter & group != 0
}

/// The filter of a bullet: the bitwise complement of its firer's group,
/// so it can hit everything outside the firing faction.
pub open spec fn spec_bullet_filter(group: u32) -> u32 {
    group ^ 0xffff_ffffu32
}

pub fn bullet_filter(group: u32) -> (r: u32)
    ensures
        r == spec_bullet_filter(group),
{
    group ^ u32::MAX
}

/// The home-planet friendly-fire exemption: a hit on a celestial body
/// deals no damage when the bullet's filter excludes the player bit
/// (under complement filters, that is a bullet the player's own faction
/// fired).
pub open spec fn spec_celestial_exempt(filter: u32, group: u32) -> bool {
    group & GROUP_CELESTIAL != 0 && filter & GROUP_PLAYER == 0
}

pub fn celestial_exempt(filter: u32, group: u32) -> (r: bool)
    ensures
        r == spec_celestial_exempt(filter, group),
{
    group & GROUP_CELESTIAL != 0 && filter & GROUP_PLAYER == 0
}

} // verus!
