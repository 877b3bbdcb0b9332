//! Stable identifiers for the items the game knows.

use vstd::prelude::*;
use crate::item::ring::Ring;

verus! {

#[derive(Clone, Copy, Debug, PartialEq, Eq, Structural)]
pub enum Key {
    Potion,
    Amulet,
    EvadeRing,
    VoidRing,
    RulingRing,
}

impl Key {
    /// The ring an item key stands for, if it is a ring.
    pub open spec fn spec_ring(self) -> Option<Ring> {
        match self {
            Key::EvadeRing => Some(Ring::Evade),
            Key::VoidRing => Some(Ring::Void),
            Key::RulingRing => Some(Ring::Ruling),
            _ => None,
        }
    }

    /// The item key a ring is stored under.
    pub open spec fn spec_of_ring(r: Ring) -> Key {
        match r {
            Ring::Evade => Key::EvadeRing,
            Ring::Void => Key::VoidRing,
            Ring::Ruling => Key::RulingRing,
        }
    }

    /// The item key a ring is stored under.
    pub fn of_ring(r: Ring) -> (k: Key)
        ensures
            k == Key::spec_of_ring(r),
    {
        match r {
            Ring::Evade => Key::EvadeRing,
            Ring::Void => Key::VoidRing,
            Ring::Ruling => Key::RulingRing,
        }
    }

    /// The ring an item key stands for, if it is a ring.
    pub fn as_ring(&self) -> (r: Option<Ring>)
        ensures
            r == self.spec_ring(),
    {
        match self {
            Key::EvadeRing => Some(Ring::Evade),
            Key::VoidRing => Some(Ring::Void),
            Key::RulingRing => Some(Ring::Ruling),
            _ => None,
        }
    }
}

} // verus!
