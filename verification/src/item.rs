//! Items the hero can carry: rings with passive powers, potions and the
//! quest amulet, identified by their stable keys.

use vstd::prelude::*;

pub mod amulet;
pub mod key;
pub mod ring;

verus! {

/// What the shop charges for an item, in gold.
pub open spec fn spec_price(k: key::Key) -> int {
    match k {
        key::Key::Potion => 200,
        key::Key::Amulet => 1000,
        key::Key::EvadeRing => 500,
        key::Key::VoidRing => 100,
        key::Key::RulingRing => 1000,
    }
}

/// What the shop charges for an item, in gold.
pub fn price(k: key::Key) -> (r: i64)
    ensures
        r == spec_price(k),
        0 < r <= 1000,
{
    match k {
        key::Key::Potion => 200,
        key::Key::Amulet => 1000,
        key::Key::EvadeRing => 500,
        key::Key::VoidRing => 100,
        key::Key::RulingRing => 1000,
    }
}

} // verus!
