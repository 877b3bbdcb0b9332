//! Core of a turn-based dungeon-crawl engine: encounter generation, the
//! combat state machine, character progression and equipment, status
//! effects, quest event propagation and the death/tombstone ledger.
//!
//! The surrounding command layer owns argument parsing, persistence and
//! presentation; it hands this crate plain values and reads plain values
//! back.

use vstd::prelude::*;

pub mod character;
pub mod game;
pub mod item;
pub mod location;
pub mod quest;
pub mod randomizer;

verus! {

/// The distinguishable failures that game actions can report.
///
/// A failed roll inside a verb (a rejected bribe, a lost bet) is not an
/// error: only structurally invalid actions and death are.
#[derive(Clone, Copy, Debug, PartialEq, Eq, Structural)]
pub enum GameError {
    /// The verb does not match the current encounter state.
    InvalidAction,
    /// The given name does not denote any skill.
    UnknownSkill,
    /// The skill exists but the character has not learned it.
    SkillNotLearned,
    /// The character cannot pay a skill's resource cost.
    InsufficientResources,
    /// The character died; the death ledger has already run.
    CharacterDead,
    /// Not enough gold for a bribe, bet or purchase.
    InsufficientGold,
}

} // verus!
