//! Non-combat encounters: wandering characters the hero can interact
//! with through exactly one matching verb each.

use vstd::prelude::*;
use crate::location::Location;
use crate::randomizer::{appear_chance, Randomizer};

verus! {

/// The kinds of NPC encounter.  Each resolves through its single verb:
/// bet with the Gambler, brew with the Witch, listen to the Ghostly
/// Maiden.
#[derive(Clone, Copy, Debug, PartialEq, Eq, Structural)]
pub enum Encounter {
    Gambler,
    Witch,
    GhostlyMaiden,
}

/// The NPC kind a uniform three-way roll selects.
pub open spec fn spec_npc_of_roll(k: int) -> Encounter {
    if k == 0 {
        Encounter::Gambler
    } else if k == 1 {
        Encounter::Witch
    } else {
        Encounter::GhostlyMaiden
    }
}

/// Rolls whether an NPC appears at the given location (same appearance
/// gate as enemies) and which kind it is, by a distinct uniform choice.
pub fn spawn(location: &Location, rng: &Randomizer) -> (r: Option<Encounter>)
    requires
        location.wf(),
    ensures
        rng.fixed_val() matches Some(v) ==> r == if (v % 100) < appear_chance(
            location.distance.len as int,
        ) {
            Some(spec_npc_of_roll((v % 3) as int))
        } else {
            None::<Encounter>
        },
{
    if rng.should_enemy_appear(&location.distance_from_home()) {
        let k = rng.range(3);
        let encounter = if k == 0 {
            Encounter::Gambler
        } else if k == 1 {
            Encounter::Witch
        } else {
            Encounter::GhostlyMaiden
        };
        Some(encounter)
    } else {
        None
    }
}

} // verus!
