//! Quest: recover a fallen hero's tombstone.

use vstd::prelude::*;
use crate::quest::Event;

verus! {

#[derive(Debug, Clone, Copy, PartialEq, Eq, Structural)]
pub struct VisitTombstone {
    pub finished: bool,
}

impl VisitTombstone {
    pub fn new() -> (r: Self)
        ensures
            !r.finished,
    {
        Self { finished: false }
    }

    pub fn description(&self) -> (r: String)
        ensures
            r@ == "Visit a fallen hero's tombstone."@,
    {
        "Visit a fallen hero's tombstone.".to_owned()
    }

    /// Completes the first time a tombstone is recovered; once complete
    /// it stays complete, whatever else happens.
    pub fn handle(&mut self, event: &Event) -> (r: bool)
        ensures
            final(self).finished == (old(self).finished || event is TombstoneVisited),
            r == final(self).finished,
            old(self).finished ==> final(self).finished,
    {
        if let Event::TombstoneVisited = event {
            self.finished = true;
        }
        self.finished
    }
}

} // verus!
