//! The Amulet of Power: a passive treasure whose only effect is to
//! satisfy the quest that looks for it.

use vstd::prelude::*;
use crate::item::key::Key;

verus! {

#[derive(Debug, Clone, Copy, PartialEq, Eq, Structural)]
pub struct Amulet;

impl Amulet {
    pub fn new() -> (r: Self)
        ensures
            r == Amulet,
    {
        Self {  }
    }

    /// The amulet's stable item key.
    pub fn key(&self) -> (r: Key)
        ensures
            r == Key::Amulet,
    {
        Key::Amulet
    }

    /// The amulet's power is passive and checked in quests; using it
    /// changes nothing.
    pub fn apply(&self) {
    }

    pub fn describe(&self) -> (r: String)
        ensures
            r@ == "A mysterious amulet that hums with ancient power."@,
    {
        "A mysterious amulet that hums with ancient power.".to_owned()
    }
}

} // verus!
