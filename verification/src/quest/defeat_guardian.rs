//! Quest: defeat the guardian boss.  While it is pending, the guardian
//! stalks the hero far from home.

use vstd::prelude::*;
use crate::quest::Event;

verus! {

#[derive(Debug, Clone, Copy, PartialEq, Eq, Structural)]
pub struct DefeatGuardian {
    pub finished: bool,
}

impl DefeatGuardian {
    pub fn new() -> (r: Self)
        ensures
            !r.finished,
    {
        Self { finished: false }
    }

    pub fn description(&self) -> (r: String)
        ensures
            r@ == "Defeat the Guardian."@,
    {
        "Defeat the Guardian.".to_owned()
    }

    /// Completes on a battle won against the guardian; once complete it
    /// stays complete, whatever else happens.
    pub fn handle(&mut self, event: &Event) -> (r: bool)
        ensures
            final(self).finished == (old(self).finished || match event {
                Event::BattleWon { enemy_name } => enemy_name@ == "guardian"@,
                _ => false,
            }),
            r == final(self).finished,
            old(self).finished ==> final(self).finished,
    {
        if let Event::BattleWon { enemy_name } = event {
            if *enemy_name == "guardian".to_owned() {
                self.finished = true;
            }
        }
        self.finished
    }
}

} // verus!
