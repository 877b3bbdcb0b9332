//! The equipable rings.  The hero has two ordered ring slots with FIFO
//! eviction; the Evade ring suppresses encounters and the Ruling ring
//! unlocks the final boss.

use vstd::prelude::*;

verus! {

#[derive(Clone, Copy, Debug, PartialEq, Eq, Structural)]
pub enum Ring {
    /// While worn in either slot, no enemies appear.
    Evade,
    /// A plain band with no power of its own.
    Void,
    /// Worn far enough from home, it wakes the final boss.
    Ruling,
}

} // verus!
