//! Quest: find the Amulet of Power.

use vstd::prelude::*;
use crate::item::key::Key;
use crate::quest::Event;

verus! {

#[derive(Debug, Clone, Copy, PartialEq, Eq, Structural)]
pub struct FindAmulet {
    pub finished: bool,
}

impl FindAmulet {
    pub fn new() -> (r: Self)
        ensures
            !r.finished,
    {
        Self { finished: false }
    }

    pub fn description(&self) -> (r: String)
        ensures
            r@ == "Find the Amulet of Power."@,
    {
        "Find the Amulet of Power.".to_owned()
    }

    /// Completes when the amulet enters the inventory; once complete it
    /// stays complete, whatever else happens.
    pub fn handle(&mut self, event: &Event) -> (r: bool)
        ensures
            final(self).finished == (old(self).finished || match event {
                Event::ItemAdded { item } => item == Key::Amulet,
                _ => false,
            }),
            r == final(self).finished,
            old(self).finished ==> final(self).finished,
    {
        if let Event::ItemAdded { item } = event {
            if *item == Key::Amulet {
                self.finished = true;
            }
        }
        self.finished
    }
}

} // verus!
