//! The quest event bus: immutable events produced by combat, items and
//! the tombstone ledger are delivered to every pending quest in a stable
//! order.  Completion is idempotent and permanent, and each completion
//! pays the quest's gold reward exactly once.

use vstd::prelude::*;
use crate::item::key::Key;

pub mod defeat_guardian;
pub mod find_amulet;
pub mod visit_tombstone;

use defeat_guardian::DefeatGuardian;
use find_amulet::FindAmulet;
use visit_tombstone::VisitTombstone;

verus! {

/// An immutable fact broadcast to quests after combat, item and ledger
/// actions.
#[derive(Debug, PartialEq, Eq)]
pub enum Event {
    /// A battle ended with the named enemy defeated.
    BattleWon { enemy_name: String },
    /// An item entered the hero's inventory.
    ItemAdded { item: Key },
    /// A tombstone was found and recovered.
    TombstoneVisited,
}

/// The closed set of quests the game knows, dispatched exhaustively.
#[derive(Debug, Clone, Copy, PartialEq, Eq, Structural)]
pub enum Quest {
    DefeatGuardian(DefeatGuardian),
    FindAmulet(FindAmulet),
    VisitTombstone(VisitTombstone),
}

/// Whether the event is the one that completes this quest.
pub open spec fn completes(q: Quest, e: Event) -> bool {
    match q {
        Quest::DefeatGuardian(_) => match e {
            Event::BattleWon { enemy_name } => enemy_name@ == "guardian"@,
            _ => false,
        },
        Quest::FindAmulet(_) => match e {
            Event::ItemAdded { item } => item == Key::Amulet,
            _ => false,
        },
        Quest::VisitTombstone(_) => e is TombstoneVisited,
    }
}

/// The same quest with its completion flag set to `f`.
pub open spec fn with_finished(q: Quest, f: bool) -> Quest {
    match q {
        Quest::DefeatGuardian(_) => Quest::DefeatGuardian(DefeatGuardian { finished: f }),
        Quest::FindAmulet(_) => Quest::FindAmulet(FindAmulet { finished: f }),
        Quest::VisitTombstone(_) => Quest::VisitTombstone(VisitTombstone { finished: f }),
    }
}

/// The quest list after one event: every quest's flag becomes "already
/// finished, or completed by this event".
pub open spec fn quests_after(qs: Seq<Quest>, e: Event) -> Seq<Quest> {
    qs.map_values(|q: Quest| with_finished(q, q.spec_finished() || completes(q, e)))
}

/// Gold paid out for the quests from position `i` on that this event
/// newly completes.
pub open spec fn dispatch_reward_from(qs: Seq<Quest>, e: Event, i: int) -> int
    decreases qs.len() - i,
{
    if i < 0 || i >= qs.len() {
        0
    } else {
        (if !qs[i].spec_finished() && completes(qs[i], e) {
            qs[i].spec_reward()
        } else {
            0
        }) + dispatch_reward_from(qs, e, i + 1)
    }
}

/// Total gold one event pays out across the quest list.
pub open spec fn dispatch_reward(qs: Seq<Quest>, e: Event) -> int {
    dispatch_reward_from(qs, e, 0)
}

/// Completion is monotone: a finished quest stays finished under any
/// further event, related or not.
pub proof fn lemma_quest_completion_monotone(qs: Seq<Quest>, e: Event, i: int)
    requires
        0 <= i < qs.len(),
        qs[i].spec_finished(),
    ensures
        quests_after(qs, e)[i].spec_finished(),
{
}

impl Quest {
    pub open spec fn spec_finished(self) -> bool {
        match self {
            Quest::DefeatGuardian(q) => q.finished,
            Quest::FindAmulet(q) => q.finished,
            Quest::VisitTombstone(q) => q.finished,
        }
    }

    /// Gold granted when the quest completes.
    pub open spec fn spec_reward(self) -> int {
        match self {
            Quest::DefeatGuardian(_) => 500,
            Quest::FindAmulet(_) => 1000,
            Quest::VisitTombstone(_) => 200,
        }
    }

    pub fn finished(&self) -> (r: bool)
        ensures
            r == self.spec_finished(),
    {
        match self {
            Quest::DefeatGuardian(q) => q.finished,
            Quest::FindAmulet(q) => q.finished,
            Quest::VisitTombstone(q) => q.finished,
        }
    }

    /// Gold granted when the quest completes.
    pub fn reward(&self) -> (r: i64)
        ensures
            r == self.spec_reward(),
            0 < r <= 1000,
    {
        match self {
            Quest::DefeatGuardian(_) => 500,
            Quest::FindAmulet(_) => 1000,
            Quest::VisitTombstone(_) => 200,
        }
    }

    /// The quest's description, its stable identity for display.
    pub fn description(&self) -> (r: String)
        ensures
            self is DefeatGuardian ==> r@ == "Defeat the Guardian."@,
            self is FindAmulet ==> r@ == "Find the Amulet of Power."@,
            self is VisitTombstone ==> r@ == "Visit a fallen hero's tombstone."@,
    {
        match self {
            Quest::DefeatGuardian(q) => q.description(),
            Quest::FindAmulet(q) => q.description(),
            Quest::VisitTombstone(q) => q.description(),
        }
    }

    /// Consumes one event and reports whether the quest is now complete.
    pub fn handle(&mut self, event: &Event) -> (r: bool)
        ensures
            *final(self) == with_finished(
                *old(self),
                old(self).spec_finished() || completes(*old(self), *event),
            ),
            r == final(self).spec_finished(),
            old(self).spec_finished() ==> final(self).spec_finished(),
    {
        match self {
            Quest::DefeatGuardian(q) => q.handle(event),
            Quest::FindAmulet(q) => q.handle(event),
            Quest::VisitTombstone(q) => q.handle(event),
        }
    }
}

/// The quest list held by the game: created once at initialization,
/// quests live for the whole game and are never deleted.
#[derive(Debug)]
pub struct QuestList {
    pub quests: Vec<Quest>,
}

impl QuestList {
    /// The bus never tracks more quests than this.
    pub open spec fn wf(self) -> bool {
        self.quests@.len() <= 100
    }

    /// The standard quest book.
    pub fn new() -> (r: QuestList)
        ensures
            r.quests@.len() == 3,
            r.quests@[0] == Quest::DefeatGuardian(DefeatGuardian { finished: false }),
            r.quests@[1] == Quest::FindAmulet(FindAmulet { finished: false }),
            r.quests@[2] == Quest::VisitTombstone(VisitTombstone { finished: false }),
            r.wf(),
    {
        let mut quests: Vec<Quest> = Vec::new();
        quests.push(Quest::DefeatGuardian(DefeatGuardian::new()));
        quests.push(Quest::FindAmulet(FindAmulet::new()));
        quests.push(Quest::VisitTombstone(VisitTombstone::new()));
        QuestList { quests }
    }

    /// Whether the guardian quest exists and is still pending.
    pub open spec fn spec_guardian_pending(self) -> bool {
        exists|i: int|
            0 <= i < self.quests@.len() && ((#[trigger] self.quests@[i]) matches
            Quest::DefeatGuardian(d) && !d.finished)
    }

    /// Whether the guardian quest exists and is still pending.
    pub fn guardian_pending(&self) -> (r: bool)
        ensures
            r == self.spec_guardian_pending(),
    {
        let mut i: usize = 0;
        while i < self.quests.len()
            invariant
                i <= self.quests@.len(),
                forall|j: int|
                    0 <= j < i ==> !((#[trigger] self.quests@[j]) matches Quest::DefeatGuardian(d)
                        && !d.finished),
            decreases self.quests@.len() - i,
        {
            if let Quest::DefeatGuardian(d) = &self.quests[i] {
                if !d.finished {
                    return true;
                }
            }
            i = i + 1;
        }
        false
    }

    /// Delivers one event to every pending quest in order (completed
    /// quests are skipped) and returns the gold the newly completed
    /// quests pay out.
    pub fn handle_event(&mut self, event: &Event) -> (reward: i64)
        requires
            old(self).wf(),
        ensures
            final(self).quests@ == quests_after(old(self).quests@, *event),
            reward == dispatch_reward(old(self).quests@, *event),
            0 <= reward <= 1000 * old(self).quests@.len(),
            final(self).wf(),
    {
        let ghost orig = self.quests@;
        let n = self.quests.len();
        let mut updated: Vec<Quest> = Vec::new();
        let mut reward: i64 = 0;
        let mut i: usize = 0;
        while i < n
            invariant
                n == orig.len() <= 100,
                self.quests@ == orig,
                i <= n,
                updated@.len() == i,
                forall|j: int|
                    0 <= j < i ==> updated@[j] == with_finished(
                        orig[j],
                        orig[j].spec_finished() || completes(orig[j], *event),
                    ),
                0 <= reward <= 1000 * i,
                dispatch_reward(orig, *event) == reward + dispatch_reward_from(orig, *event, i as int),
            decreases n - i,
        {
            let mut q = self.quests[i].clone();
            if !q.finished() {
                let now = q.handle(event);
                if now {
                    reward = reward + q.reward();
                }
            } else {
                proof {
                    assert(with_finished(orig[i as int], true) == orig[i as int]);
                }
            }
            updated.push(q);
            i = i + 1;
        }
        self.quests = updated;
        proof {
            assert(self.quests@ =~= quests_after(orig, *event));
        }
        reward
    }
}

} // verus!
