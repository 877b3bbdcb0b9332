//! The game state tree and every action verb over it: movement, the
//! combat/encounter state machine, the status-effect processor, the
//! death/tombstone ledger, shopping and items.
//!
//! All state transitions are discrete and synchronous: one player
//! action at a time, each fully applied or rejected before mutating
//! state (the death pipeline being the one deliberate side-effecting
//! continuation of a failed action).

use vstd::prelude::*;
use crate::character::class::Class;
use crate::character::enemy;
use crate::character::npc;
use crate::character::npc::Encounter;
use crate::character::{
    clamp_level, level_up, spec_evasion, Character, Skill, StatusEffect, XP_MAX,
};
use crate::item;
use crate::item::key::Key;
use crate::location::{Distance, Location};
use crate::quest::{dispatch_reward, quests_after, Event, QuestList};
use crate::randomizer::{appear_chance, Randomizer};
use crate::GameError;

verus! {

/// Addition of non-negative gold or experience, saturating at the
/// storage bound.
pub open spec fn sat_add(a: int, b: int) -> int {
    if a + b > i64::MAX {
        i64::MAX as int
    } else {
        a + b
    }
}

/// Addition of non-negative amounts, saturating at the storage bound.
pub fn sat_add_i64(a: i64, b: i64) -> (r: i64)
    requires
        0 <= a,
        0 <= b,
    ensures
        r == sat_add(a as int, b as int),
        0 <= r,
{
    if b > i64::MAX - a {
        i64::MAX
    } else {
        a + b
    }
}

/// A recoverable world object left on death: the death location and the
/// gold carried, credited back on the first later visit.
#[derive(Debug, Clone, Copy, PartialEq, Eq, Structural)]
pub struct Tombstone {
    pub location: Location,
    pub gold: i64,
}

impl Tombstone {
    pub open spec fn wf(self) -> bool {
        self.location.wf() && 0 <= self.gold
    }
}

/// Whether some tombstone stands at the location.
pub open spec fn has_tombstone(ts: Seq<Tombstone>, loc: Location) -> bool {
    exists|i: int| 0 <= i < ts.len() && (#[trigger] ts[i]).location == loc
}

/// The state after one combat exchange, for the side hit for `dmg`.
pub open spec fn damaged(c: Character, dmg: int) -> Character {
    Character {
        current_hp: (if c.current_hp - dmg < 0 {
            0int
        } else {
            c.current_hp - dmg
        }) as i64,
        ..c
    }
}

/// The character after gaining experience: the pool saturates, levels
/// are consumed greedily, and any gained level restores health to the
/// new maximum.
pub open spec fn char_after_xp(c: Character, amount: int) -> Character {
    let total = if c.xp + amount > XP_MAX {
        XP_MAX as int
    } else {
        c.xp + amount
    };
    let lx = level_up(c.level as int, total);
    Character {
        level: lx.0 as i64,
        xp: lx.1 as i64,
        current_hp: (if lx.0 != c.level {
            c.class.hp.spec_at(lx.0)
        } else {
            c.current_hp as int
        }) as i64,
        ..c
    }
}

/// Experience granted for defeating an enemy.
pub open spec fn spec_xp_reward(e: Character) -> int {
    10 * e.level
}

/// Gold granted for defeating an enemy.
pub open spec fn spec_gold_reward(e: Character) -> int {
    50 * e.level
}

/// Gold a bribe costs, proportional to enemy difficulty.
pub open spec fn spec_bribe_cost(e: Character) -> int {
    30 * e.level
}

/// Chance, in percent, that fleeing succeeds: even at equal speed, one
/// point per point of speed advantage, kept between 5 and 95.
pub open spec fn spec_flee_chance(ps: int, es: int) -> int {
    if 50 + ps - es < 5 {
        5
    } else if 50 + ps - es > 95 {
        95
    } else {
        50 + ps - es
    }
}

/// Whether the player strikes before the enemy in an exchange.
pub open spec fn spec_player_first(p: Character, e: Character) -> bool {
    p.spec_speed() >= e.spec_speed()
}

/// Outcome of one attack exchange: 0 the fight continues, 1 the enemy
/// falls, 2 the player falls.  The faster side strikes first, each hit
/// deals the striker's strength, and a side that falls does not strike
/// back.
pub open spec fn spec_round_outcome(p: Character, e: Character) -> int {
    if spec_player_first(p, e) {
        if e.current_hp <= p.spec_strength() {
            1
        } else if p.current_hp <= e.spec_strength() {
            2
        } else {
            0
        }
    } else {
        if p.current_hp <= e.spec_strength() {
            2
        } else if e.current_hp <= p.spec_strength() {
            1
        } else {
            0
        }
    }
}

/// The player after one attack exchange.
pub open spec fn spec_player_after_round(p: Character, e: Character) -> Character {
    if spec_player_first(p, e) {
        if e.current_hp <= p.spec_strength() {
            p
        } else {
            damaged(p, e.spec_strength())
        }
    } else {
        damaged(p, e.spec_strength())
    }
}

/// The enemy after one attack exchange.
pub open spec fn spec_enemy_after_round(p: Character, e: Character) -> Character {
    if spec_player_first(p, e) {
        damaged(e, p.spec_strength())
    } else {
        if p.current_hp <= e.spec_strength() {
            e
        } else {
            damaged(e, p.spec_strength())
        }
    }
}

/// Result of a battle fought exchange by exchange to its end, over the
/// fighters' effective numbers (the hero's health, strength and speed,
/// then the enemy's): the hero's remaining health when the enemy
/// falls, or `None` when the hero falls first.  Each exchange works as
/// in `spec_round_outcome`; the recursion descends on the enemy's
/// health, which every continuing exchange reduces by the hero's
/// strength.
pub open spec fn spec_duel(php: int, pstr: int, pspd: int, ehp: int, estr: int, espd: int) -> Option<
    int,
>
    decreases ehp,
        when 1 <= pstr && 0 <= ehp
{
    if pspd >= espd {
        if ehp <= pstr {
            Some(php)
        } else if php <= estr {
            None
        } else {
            spec_duel(php - estr, pstr, pspd, ehp - pstr, estr, espd)
        }
    } else {
        if php <= estr {
            None
        } else if ehp <= pstr {
            Some(php - estr)
        } else {
            spec_duel(php - estr, pstr, pspd, ehp - pstr, estr, espd)
        }
    }
}

/// The character after one status tick: an active burn costs its
/// damage, no effect costs nothing.  Ticks happen on location changes
/// only, whether or not the movement also triggers or bypasses combat.
pub open spec fn spec_after_tick(c: Character) -> Character {
    match c.status_effect {
        None => c,
        Some(StatusEffect::Burn) => damaged(c, c.spec_burn_damage()),
    }
}

/// Arriving home restores full health and cures any status effect;
/// anywhere else changes nothing.
pub open spec fn spec_home_refresh(c: Character, at_home: bool) -> Character {
    if at_home {
        Character { current_hp: c.spec_max_hp() as i64, status_effect: None, ..c }
    } else {
        c
    }
}

/// The whole game state: the hero, the world, the active encounter slot
/// and the quest book.
#[derive(Debug)]
pub struct Game {
    pub player: Character,
    pub gold: i64,
    pub location: Location,
    /// At most one encounter is active: combat and NPC encounters are
    /// mutually exclusive.
    pub in_combat: Option<Character>,
    pub in_encounter: Option<Encounter>,
    pub tombstones: Vec<Tombstone>,
    pub quests: QuestList,
    pub inventory: Vec<Key>,
    pub hardcore: bool,
    pub rng: Randomizer,
}

/// The death ledger, applied atomically: a tombstone at the death
/// location holding the pre-death gold (replacing any older one there),
/// and the hero reset — fresh body of the same class at level 1, full
/// health, no gold, no experience, back home, every encounter slot
/// cleared.  Quests, inventory and the wider world survive.
pub open spec fn death_settled(pre: Game, post: Game) -> bool {
    &&& post.player.class == pre.player.class
    &&& post.player.level == 1
    &&& post.player.xp == 0
    &&& post.player.current_hp == post.player.spec_max_hp()
    &&& post.player.left_ring is None
    &&& post.player.right_ring is None
    &&& post.player.status_effect is None
    &&& post.player.skills@ =~= Seq::<Skill>::empty()
    &&& post.gold == 0
    &&& post.location == (Location { id: 0u64, distance: Distance { len: 0i64 }, rpg_dir: false })
    &&& post.in_combat is None
    &&& post.in_encounter is None
    &&& post.quests == pre.quests
    &&& post.inventory == pre.inventory
    &&& post.hardcore == pre.hardcore
    &&& post.rng == pre.rng
    &&& ({
        let t = Tombstone { location: pre.location, gold: pre.gold };
        if has_tombstone(pre.tombstones@, pre.location) {
            exists|k: int|
                0 <= k < pre.tombstones@.len() && (#[trigger] pre.tombstones@[k]).location
                    == pre.location && post.tombstones@ == pre.tombstones@.remove(k).push(t)
        } else {
            post.tombstones@ == pre.tombstones@.push(t)
        }
    })
}

impl Game {
    /// Validity of the whole state tree: every part well formed, gold
    /// non-negative, at most one active encounter, and at most one
    /// tombstone per location.
    pub open spec fn wf(self) -> bool {
        &&& self.player.wf()
        &&& 0 <= self.gold
        &&& self.location.wf()
        &&& match self.in_combat {
            Some(e) => e.wf(),
            None => true,
        }
        &&& !(self.in_combat is Some && self.in_encounter is Some)
        &&& forall|i: int|
            0 <= i < self.tombstones@.len() ==> (#[trigger] self.tombstones@[i]).wf()
        &&& forall|i: int, j: int|
            0 <= i < j < self.tombstones@.len() ==> self.tombstones@[i].location
                != self.tombstones@[j].location
        &&& self.quests.wf()
    }

    /// A fresh game with the given randomizer: the default hero at
    /// home, no gold, the standard quest book, nothing engaged.
    pub fn new_with(rng: Randomizer) -> (r: Game)
        ensures
            r.wf(),
            r.player.wf(),
            r.player.level == 1,
            r.player.xp == 0,
            r.player.current_hp == r.player.spec_max_hp(),
            r.player.left_ring is None,
            r.player.right_ring is None,
            r.player.status_effect is None,
            r.player.skills@ =~= Seq::<Skill>::empty(),
            crate::character::class::class_is(
                r.player.class,
                "warrior"@,
                0,
                crate::character::class::Category::Player,
                crate::character::class::Stat(30, 5),
                crate::character::class::Stat(12, 3),
                crate::character::class::Stat(10, 2),
            ),
            r.gold == 0,
            r.location == (Location { id: 0u64, distance: Distance { len: 0i64 }, rpg_dir: false }),
            r.in_combat is None,
            r.in_encounter is None,
            r.tombstones@ =~= Seq::<Tombstone>::empty(),
            r.quests.quests@.len() == 3,
            !r.quests.quests@[0].spec_finished(),
            !r.quests.quests@[1].spec_finished(),
            !r.quests.quests@[2].spec_finished(),
            r.quests.quests@[0] is DefeatGuardian,
            r.quests.quests@[1] is FindAmulet,
            r.quests.quests@[2] is VisitTombstone,
            r.inventory@ =~= Seq::<Key>::empty(),
            !r.hardcore,
            r.rng == rng,
    {
        Game {
            player: Character::player(),
            gold: 0,
            location: Location::home(),
            in_combat: None,
            in_encounter: None,
            tombstones: Vec::new(),
            quests: QuestList::new(),
            inventory: Vec::new(),
            hardcore: false,
            rng,
        }
    }

    /// A fresh game drawing from the machine's random number generator.
    pub fn new() -> (r: Game)
        ensures
            r.wf(),
            r.player.wf(),
            r.player.level == 1,
            r.gold == 0,
            r.location == (Location { id: 0u64, distance: Distance { len: 0i64 }, rpg_dir: false }),
            r.in_combat is None,
            r.in_encounter is None,
            r.tombstones@ =~= Seq::<Tombstone>::empty(),
            r.inventory@ =~= Seq::<Key>::empty(),
            !r.hardcore,
            r.rng == Randomizer::Live,
    {
        Game::new_with(Randomizer::Live)
    }

    /// Resets the current run: a fresh hero of the same class, no gold,
    /// back home, encounter slots cleared.  Tombstones, quests and the
    /// inventory survive resets.
    pub fn reset(&mut self)
        requires
            old(self).player.class.wf(),
        ensures
            final(self).player.class == old(self).player.class,
            final(self).player.level == 1,
            final(self).player.xp == 0,
            final(self).player.current_hp == final(self).player.spec_max_hp(),
            final(self).player.left_ring is None,
            final(self).player.right_ring is None,
            final(self).player.status_effect is None,
            final(self).player.skills@ =~= Seq::<Skill>::empty(),
            final(self).gold == 0,
            final(self).location == (Location {
                id: 0u64,
                distance: Distance { len: 0i64 },
                rpg_dir: false,
            }),
            final(self).in_combat is None,
            final(self).in_encounter is None,
            final(self).tombstones == old(self).tombstones,
            final(self).quests == old(self).quests,
            final(self).inventory == old(self).inventory,
            final(self).hardcore == old(self).hardcore,
            final(self).rng == old(self).rng,
            old(self).wf() ==> final(self).wf(),
    {
        let class = self.player.class.clone();
        self.player = Character::new(class, 1);
        self.gold = 0;
        self.location = Location::home();
        self.in_combat = None;
        self.in_encounter = None;
    }

    /// Sets hardcore mode.
    pub fn set_hardcore(&mut self, on: bool)
        ensures
            *final(self) == (Game { hardcore: on, ..*old(self) }),
    {
        self.hardcore = on;
    }

    /// Delivers one event to the quest book and credits the gold the
    /// newly completed quests pay out.
    pub fn dispatch_event(&mut self, event: &Event)
        requires
            old(self).wf(),
        ensures
            final(self).quests.quests@ == quests_after(old(self).quests.quests@, *event),
            final(self).gold == sat_add(
                old(self).gold as int,
                dispatch_reward(old(self).quests.quests@, *event),
            ),
            *final(self) == (Game {
                quests: final(self).quests,
                gold: final(self).gold,
                ..*old(self)
            }),
            old(self).gold <= final(self).gold,
            final(self).wf(),
    {
        let reward = self.quests.handle_event(event);
        self.gold = sat_add_i64(self.gold, reward);
    }

    /// The death pipeline: runs when current health reaches zero, via
    /// combat or a status effect, and applies the death ledger.
    pub fn settle_death(&mut self)
        requires
            old(self).wf(),
        ensures
            death_settled(*old(self), *final(self)),
            final(self).wf(),
    {
        let t = Tombstone { location: self.location, gold: self.gold };
        let mut i: usize = 0;
        let n = self.tombstones.len();
        let mut removed = false;
        while i < n && !removed
            invariant
                old(self).wf(),
                !removed ==> n == self.tombstones@.len(),
                removed ==> n - 1 == self.tombstones@.len(),
                i <= n,
                !removed ==> self.tombstones@ == old(self).tombstones@,
                !removed ==> forall|j: int|
                    0 <= j < i ==> (#[trigger] old(self).tombstones@[j]).location != t.location,
                t == (Tombstone { location: old(self).location, gold: old(self).gold }),
                removed ==> exists|k: int|
                    0 <= k < old(self).tombstones@.len() && (#[trigger] old(self).tombstones@[k]).location == t.location && self.tombstones@ == old(self).tombstones@.remove(k),
                *self == (Game { tombstones: self.tombstones, ..*old(self) }),
            decreases n - i + (if removed { 0int } else { 1int }),
        {
            if self.tombstones[i].location == t.location {
                let _ = self.tombstones.remove(i);
                removed = true;
            } else {
                i = i + 1;
            }
        }
        proof {
            if !removed {
                assert(!has_tombstone(old(self).tombstones@, old(self).location));
            }
        }
        self.tombstones.push(t);
        self.reset();
    }

    /// Inspects the current location.  A tombstone found there is
    /// consumed: its gold is credited back, plus whatever its recovery
    /// pays out through the quest book.  Afterwards no tombstone stands
    /// here, so a second visit finds none.
    pub fn inspect(&mut self) -> (r: Option<i64>)
        requires
            old(self).wf(),
        ensures
            !has_tombstone(old(self).tombstones@, old(self).location) ==> r is None && *final(self)
                == *old(self),
            has_tombstone(old(self).tombstones@, old(self).location) ==> exists|k: int|
                0 <= k < old(self).tombstones@.len() && (#[trigger] old(self).tombstones@[k]).location == old(self).location && r == Some(
                    old(self).tombstones@[k].gold,
                ) && final(self).tombstones@ == old(self).tombstones@.remove(k) && final(self).gold
                    == sat_add(
                    sat_add(old(self).gold as int, old(self).tombstones@[k].gold as int),
                    dispatch_reward(old(self).quests.quests@, Event::TombstoneVisited),
                ) && final(self).quests.quests@ == quests_after(
                    old(self).quests.quests@,
                    Event::TombstoneVisited,
                ) && *final(self) == (Game {
                    tombstones: final(self).tombstones,
                    gold: final(self).gold,
                    quests: final(self).quests,
                    ..*old(self)
                }),
            forall|j: int|
                0 <= j < final(self).tombstones@.len() ==> (#[trigger] final(self).tombstones@[j]).location != old(self).location,
            final(self).wf(),
    {
        let n = self.tombstones.len();
        let mut i: usize = 0;
        while i < n
            invariant
                old(self).wf(),
                n == self.tombstones@.len(),
                i <= n,
                self.tombstones@ == old(self).tombstones@,
                *self == *old(self),
                forall|j: int|
                    0 <= j < i ==> (#[trigger] old(self).tombstones@[j]).location != old(self).location,
            decreases n - i,
        {
            if self.tombstones[i].location == self.location {
                let t = self.tombstones.remove(i);
                self.gold = sat_add_i64(self.gold, t.gold);
                self.dispatch_event(&Event::TombstoneVisited);
                return Some(t.gold);
            }
            i = i + 1;
        }
        proof {
            assert(!has_tombstone(old(self).tombstones@, old(self).location));
        }
        None
    }

    /// Bookkeeping for a battle won: experience and gold are granted in
    /// proportion to the fallen enemy's level, and the victory is
    /// broadcast to the quest book.
    fn win_battle(&mut self, enemy: Character)
        requires
            old(self).wf(),
            enemy.wf(),
        ensures
            final(self).player == char_after_xp(old(self).player, spec_xp_reward(enemy)),
            final(self).gold == sat_add(
                sat_add(old(self).gold as int, spec_gold_reward(enemy)),
                dispatch_reward(
                    old(self).quests.quests@,
                    Event::BattleWon { enemy_name: enemy.class.name },
                ),
            ),
            final(self).quests.quests@ == quests_after(
                old(self).quests.quests@,
                Event::BattleWon { enemy_name: enemy.class.name },
            ),
            *final(self) == (Game {
                player: final(self).player,
                gold: final(self).gold,
                quests: final(self).quests,
                ..*old(self)
            }),
            old(self).player.level <= final(self).player.level,
            final(self).player.level != old(self).player.level ==> final(self).player.current_hp
                == final(self).player.spec_max_hp(),
            final(self).player.level == old(self).player.level ==> final(self).player.current_hp
                == old(self).player.current_hp,
            old(self).gold <= final(self).gold,
            old(self).gold + spec_gold_reward(enemy) <= i64::MAX ==> old(self).gold
                + spec_gold_reward(enemy) <= final(self).gold,
            final(self).wf(),
    {
        let xp = 10 * enemy.level;
        self.player.add_experience(xp);
        let g = 50 * enemy.level;
        self.gold = sat_add_i64(self.gold, g);
        self.dispatch_event(&Event::BattleWon { enemy_name: enemy.class.name });
    }

    /// One attack exchange against the engaged enemy.  The faster side
    /// strikes first for its strength; a side that falls does not
    /// strike back.  A fallen enemy pays out and clears the slot
    /// (`Ok(true)`); a fallen hero runs the death pipeline; otherwise
    /// combat continues (`Ok(false)`).
    pub fn attack(&mut self) -> (r: Result<bool, GameError>)
        requires
            old(self).wf(),
        ensures
            old(self).in_combat is None ==> r == Err::<bool, GameError>(GameError::InvalidAction)
                && *final(self) == *old(self),
            match old(self).in_combat {
                None => true,
                Some(e) => {
                    let p = old(self).player;
                    let oc = spec_round_outcome(p, e);
                    &&& (oc == 1 ==> r == Ok::<bool, GameError>(true) && final(self).in_combat
                        is None && final(self).player == char_after_xp(
                        spec_player_after_round(p, e),
                        spec_xp_reward(e),
                    ) && final(self).gold == sat_add(
                        sat_add(old(self).gold as int, spec_gold_reward(e)),
                        dispatch_reward(
                            old(self).quests.quests@,
                            Event::BattleWon { enemy_name: e.class.name },
                        ),
                    ) && final(self).quests.quests@ == quests_after(
                        old(self).quests.quests@,
                        Event::BattleWon { enemy_name: e.class.name },
                    ) && *final(self) == (Game {
                        player: final(self).player,
                        gold: final(self).gold,
                        quests: final(self).quests,
                        in_combat: None,
                        ..*old(self)
                    }))
                    &&& (oc == 2 ==> r == Err::<bool, GameError>(GameError::CharacterDead)
                        && death_settled(*old(self), *final(self)))
                    &&& (oc == 0 ==> r == Ok::<bool, GameError>(false) && *final(self) == (Game {
                        player: spec_player_after_round(p, e),
                        in_combat: Some(spec_enemy_after_round(p, e)),
                        ..*old(self)
                    }))
                },
            },
            final(self).wf(),
    {
        let mut slot: Option<Character> = None;
        core::mem::swap(&mut slot, &mut self.in_combat);
        match slot {
            None => Err(GameError::InvalidAction),
            Some(mut e) => {
                proof {
                    crate::character::lemma_stats_positive(self.player);
                    crate::character::lemma_stats_positive(e);
                }
                if self.player.speed() >= e.speed() {
                    let pd = self.player.strength();
                    e.take_damage(pd);
                    if e.is_dead() {
                        self.win_battle(e);
                        return Ok(true);
                    }
                    let ed = e.strength();
                    self.player.take_damage(ed);
                    if self.player.is_dead() {
                        self.settle_death();
                        return Err(GameError::CharacterDead);
                    }
                    self.in_combat = Some(e);
                    Ok(false)
                } else {
                    let ed = e.strength();
                    self.player.take_damage(ed);
                    if self.player.is_dead() {
                        self.settle_death();
                        return Err(GameError::CharacterDead);
                    }
                    let pd = self.player.strength();
                    e.take_damage(pd);
                    if e.is_dead() {
                        self.win_battle(e);
                        return Ok(true);
                    }
                    self.in_combat = Some(e);
                    Ok(false)
                }
            },
        }
    }

    /// An attempt to flee the engaged enemy.  Success, whose chance
    /// grows with the hero's speed advantage, clears the slot without
    /// reward; failure costs one enemy strike, which can be lethal.
    pub fn flee(&mut self) -> (r: Result<bool, GameError>)
        requires
            old(self).wf(),
        ensures
            old(self).in_combat is None ==> r == Err::<bool, GameError>(GameError::InvalidAction)
                && *final(self) == *old(self),
            match old(self).in_combat {
                None => true,
                Some(e) => {
                    let p2 = damaged(old(self).player, e.spec_strength());
                    &&& (r == Ok::<bool, GameError>(true) ==> *final(self) == (Game {
                        in_combat: None,
                        ..*old(self)
                    }))
                    &&& (r == Ok::<bool, GameError>(false) ==> *final(self) == (Game {
                        player: p2,
                        ..*old(self)
                    }))
                    &&& (r == Err::<bool, GameError>(GameError::CharacterDead) ==> death_settled(
                        *old(self),
                        *final(self),
                    ))
                    &&& (r is Ok || r == Err::<bool, GameError>(GameError::CharacterDead))
                    &&& (old(self).rng.fixed_val() matches Some(v) ==> (if (v % 100)
                        < spec_flee_chance(old(self).player.spec_speed(), e.spec_speed()) {
                        r == Ok::<bool, GameError>(true)
                    } else if p2.current_hp == 0 {
                        r == Err::<bool, GameError>(GameError::CharacterDead)
                    } else {
                        r == Ok::<bool, GameError>(false)
                    }))
                },
            },
            final(self).wf(),
    {
        let mut slot: Option<Character> = None;
        core::mem::swap(&mut slot, &mut self.in_combat);
        match slot {
            None => Err(GameError::InvalidAction),
            Some(e) => {
                let ps = self.player.speed();
                let es = e.speed();
                let chance: i64 = if 50 + ps - es < 5 {
                    5
                } else if 50 + ps - es > 95 {
                    95
                } else {
                    50 + ps - es
                };
                let roll = self.rng.range(100);
                if (roll as i64) < chance {
                    return Ok(true);
                }
                let ed = e.strength();
                self.player.take_damage(ed);
                if self.player.is_dead() {
                    self.settle_death();
                    return Err(GameError::CharacterDead);
                }
                self.in_combat = Some(e);
                Ok(false)
            },
        }
    }

    /// An attempt to bribe the engaged enemy, at a price proportional
    /// to its difficulty.  Too little gold is a hard failure without
    /// consequence; a failed roll costs nothing but provokes one enemy
    /// strike; success pays the price and clears the slot without
    /// reward.
    pub fn bribe(&mut self) -> (r: Result<bool, GameError>)
        requires
            old(self).wf(),
        ensures
            old(self).in_combat is None ==> r == Err::<bool, GameError>(GameError::InvalidAction)
                && *final(self) == *old(self),
            match old(self).in_combat {
                None => true,
                Some(e) => {
                    let cost = spec_bribe_cost(e);
                    let p2 = damaged(old(self).player, e.spec_strength());
                    &&& (old(self).gold < cost ==> r == Err::<bool, GameError>(
                        GameError::InsufficientGold,
                    ) && *final(self) == *old(self))
                    &&& (old(self).gold >= cost ==> {
                        &&& (r == Ok::<bool, GameError>(true) ==> *final(self) == (Game {
                            gold: (old(self).gold - cost) as i64,
                            in_combat: None,
                            ..*old(self)
                        }))
                        &&& (r == Ok::<bool, GameError>(false) ==> *final(self) == (Game {
                            player: p2,
                            ..*old(self)
                        }))
                        &&& (r == Err::<bool, GameError>(GameError::CharacterDead)
                            ==> death_settled(*old(self), *final(self)))
                        &&& (r is Ok || r == Err::<bool, GameError>(GameError::CharacterDead))
                        &&& (old(self).rng.fixed_val() matches Some(v) ==> (if v % 2 == 0 {
                            r == Ok::<bool, GameError>(true)
                        } else if p2.current_hp == 0 {
                            r == Err::<bool, GameError>(GameError::CharacterDead)
                        } else {
                            r == Ok::<bool, GameError>(false)
                        }))
                    })
                },
            },
            final(self).wf(),
    {
        let mut slot: Option<Character> = None;
        core::mem::swap(&mut slot, &mut self.in_combat);
        match slot {
            None => Err(GameError::InvalidAction),
            Some(e) => {
                let cost = 30 * e.level;
                if self.gold < cost {
                    self.in_combat = Some(e);
                    return Err(GameError::InsufficientGold);
                }
                if self.rng.range(2) == 0 {
                    self.gold = self.gold - cost;
                    return Ok(true);
                }
                let ed = e.strength();
                self.player.take_damage(ed);
                if self.player.is_dead() {
                    self.settle_death();
                    return Err(GameError::CharacterDead);
                }
                self.in_combat = Some(e);
                Ok(false)
            },
        }
    }

    /// Bets gold on the Gambler's coin flip: doubled on a win, lost on
    /// a loss; either way the flip settles and the encounter is over (a
    /// zero bet is a valid, stakeless flip).  Only a negative amount is
    /// malformed, and only a bet beyond the carried gold is refused.
    pub fn bet(&mut self, amount: i64) -> (r: Result<bool, GameError>)
        requires
            old(self).wf(),
        ensures
            old(self).in_encounter != Some(Encounter::Gambler) || amount < 0 ==> r == Err::<
                bool,
                GameError,
            >(GameError::InvalidAction) && *final(self) == *old(self),
            old(self).in_encounter == Some(Encounter::Gambler) && amount >= 0 && amount > old(self).gold ==> r == Err::<bool, GameError>(GameError::InsufficientGold) && *final(self)
                == *old(self),
            old(self).in_encounter == Some(Encounter::Gambler) && 0 <= amount <= old(self).gold
                ==> {
                &&& (r == Ok::<bool, GameError>(true) ==> *final(self) == (Game {
                    gold: sat_add(old(self).gold as int, amount as int) as i64,
                    in_encounter: None,
                    ..*old(self)
                }))
                &&& (r == Ok::<bool, GameError>(false) ==> *final(self) == (Game {
                    gold: (old(self).gold - amount) as i64,
                    in_encounter: None,
                    ..*old(self)
                }))
                &&& r is Ok
                &&& (old(self).rng.fixed_val() matches Some(v) ==> r == Ok::<bool, GameError>(
                    v % 2 == 0,
                ))
            },
            final(self).wf(),
    {
        if !matches!(&self.in_encounter, Some(Encounter::Gambler)) {
            return Err(GameError::InvalidAction);
        }
        if amount < 0 {
            return Err(GameError::InvalidAction);
        }
        if amount > self.gold {
            return Err(GameError::InsufficientGold);
        }
        self.in_encounter = None;
        if self.rng.range(2) == 0 {
            self.gold = sat_add_i64(self.gold, amount);
            Ok(true)
        } else {
            self.gold = self.gold - amount;
            Ok(false)
        }
    }

    /// Asks the Witch to brew a potion: it lands in the inventory (with
    /// whatever the quest book pays for that) and the encounter is
    /// over.
    pub fn brew(&mut self) -> (r: Result<(), GameError>)
        requires
            old(self).wf(),
        ensures
            old(self).in_encounter != Some(Encounter::Witch) ==> r == Err::<(), GameError>(
                GameError::InvalidAction,
            ) && *final(self) == *old(self),
            old(self).in_encounter == Some(Encounter::Witch) ==> r == Ok::<(), GameError>(())
                && final(self).inventory@ == old(self).inventory@.push(Key::Potion) && final(self).quests.quests@ == quests_after(
                old(self).quests.quests@,
                Event::ItemAdded { item: Key::Potion },
            ) && final(self).gold == sat_add(
                old(self).gold as int,
                dispatch_reward(old(self).quests.quests@, Event::ItemAdded { item: Key::Potion }),
            ) && *final(self) == (Game {
                inventory: final(self).inventory,
                quests: final(self).quests,
                gold: final(self).gold,
                in_encounter: None,
                ..*old(self)
            }),
            final(self).wf(),
    {
        if !matches!(&self.in_encounter, Some(Encounter::Witch)) {
            return Err(GameError::InvalidAction);
        }
        self.in_encounter = None;
        self.add_item(Key::Potion);
        Ok(())
    }

    /// Listens to the Ghostly Maiden: one of her three tales is chosen
    /// uniformly and the encounter is over.
    pub fn listen(&mut self) -> (r: Result<u32, GameError>)
        requires
            old(self).wf(),
        ensures
            old(self).in_encounter != Some(Encounter::GhostlyMaiden) ==> r == Err::<u32, GameError>(
                GameError::InvalidAction,
            ) && *final(self) == *old(self),
            old(self).in_encounter == Some(Encounter::GhostlyMaiden) ==> (match r {
                Ok(lore) => lore < 3 && *final(self) == (Game { in_encounter: None, ..*old(self) })
                    && (old(self).rng.fixed_val() matches Some(v) ==> lore == v % 3),
                Err(_) => false,
            }),
            final(self).wf(),
    {
        if !matches!(&self.in_encounter, Some(Encounter::GhostlyMaiden)) {
            return Err(GameError::InvalidAction);
        }
        self.in_encounter = None;
        let lore = self.rng.range(3);
        Ok(lore)
    }

    /// Puts an item into the inventory and broadcasts its arrival to
    /// the quest book, crediting any payout.
    pub fn add_item(&mut self, item: Key)
        requires
            old(self).wf(),
        ensures
            final(self).inventory@ == old(self).inventory@.push(item),
            final(self).quests.quests@ == quests_after(
                old(self).quests.quests@,
                Event::ItemAdded { item },
            ),
            final(self).gold == sat_add(
                old(self).gold as int,
                dispatch_reward(old(self).quests.quests@, Event::ItemAdded { item }),
            ),
            *final(self) == (Game {
                inventory: final(self).inventory,
                quests: final(self).quests,
                gold: final(self).gold,
                ..*old(self)
            }),
            final(self).wf(),
    {
        self.inventory.push(item);
        self.dispatch_event(&Event::ItemAdded { item });
    }

    /// Uses a learned skill, paying its gold cost.  An unlearned skill
    /// and an unpayable cost fail distinctly; the Fireball needs an
    /// engaged enemy and follows the attack exchange's win/loss
    /// bookkeeping, striking at double strength.
    pub fn use_skill(&mut self, s: Skill) -> (r: Result<bool, GameError>)
        requires
            old(self).wf(),
        ensures
            !old(self).player.skills@.contains(s) ==> r == Err::<bool, GameError>(
                GameError::SkillNotLearned,
            ) && *final(self) == *old(self),
            old(self).player.skills@.contains(s) && old(self).gold < s.spec_cost() ==> r == Err::<
                bool,
                GameError,
            >(GameError::InsufficientResources) && *final(self) == *old(self),
            old(self).player.skills@.contains(s) && old(self).gold >= s.spec_cost() ==> ({
                let paid = (old(self).gold - s.spec_cost()) as i64;
                let p = old(self).player;
                &&& (s == Skill::Heal ==> r == Ok::<bool, GameError>(false) && *final(self)
                    == (Game {
                    player: (Character {
                        current_hp: (if p.current_hp + p.spec_max_hp() / 2 > p.spec_max_hp() {
                            p.spec_max_hp()
                        } else {
                            p.current_hp + p.spec_max_hp() / 2
                        }) as i64,
                        ..p
                    }),
                    gold: paid,
                    ..*old(self)
                }))
                &&& (s == Skill::Cure ==> r == Ok::<bool, GameError>(false) && *final(self)
                    == (Game { player: (Character { status_effect: None, ..p }), gold: paid, ..*old(self) }))
                &&& (s == Skill::Fireball ==> match old(self).in_combat {
                    None => r == Err::<bool, GameError>(GameError::InvalidAction) && *final(self)
                        == *old(self),
                    Some(e) => ({
                        let e2 = damaged(e, 2 * p.spec_strength());
                        let p2 = damaged(p, e.spec_strength());
                        &&& (e2.current_hp == 0 ==> r == Ok::<bool, GameError>(true) && final(self).in_combat is None && final(self).player == char_after_xp(
                            p,
                            spec_xp_reward(e),
                        ) && final(self).gold == sat_add(
                            sat_add(paid as int, spec_gold_reward(e)),
                            dispatch_reward(
                                old(self).quests.quests@,
                                Event::BattleWon { enemy_name: e.class.name },
                            ),
                        ) && final(self).quests.quests@ == quests_after(
                            old(self).quests.quests@,
                            Event::BattleWon { enemy_name: e.class.name },
                        ) && *final(self) == (Game {
                            player: final(self).player,
                            gold: final(self).gold,
                            quests: final(self).quests,
                            in_combat: None,
                            ..*old(self)
                        }))
                        &&& (e2.current_hp > 0 && p2.current_hp == 0 ==> r == Err::<
                            bool,
                            GameError,
                        >(GameError::CharacterDead) && death_settled(
                            (Game { gold: paid, ..*old(self) }),
                            *final(self),
                        ))
                        &&& (e2.current_hp > 0 && p2.current_hp > 0 ==> r == Ok::<bool, GameError>(
                            false,
                        ) && *final(self) == (Game {
                            player: p2,
                            gold: paid,
                            in_combat: Some(e2),
                            ..*old(self)
                        }))
                    }),
                })
            }),
            final(self).wf(),
    {
        if !self.player.has_skill(s) {
            return Err(GameError::SkillNotLearned);
        }
        let cost = s.cost();
        if self.gold < cost {
            return Err(GameError::InsufficientResources);
        }
        match s {
            Skill::Heal => {
                self.gold = self.gold - cost;
                let max = self.player.max_hp();
                self.player.heal(max / 2);
                Ok(false)
            },
            Skill::Cure => {
                self.gold = self.gold - cost;
                self.player.cure();
                Ok(false)
            },
            Skill::Fireball => {
                let mut slot: Option<Character> = None;
                core::mem::swap(&mut slot, &mut self.in_combat);
                match slot {
                    None => Err(GameError::InvalidAction),
                    Some(mut e) => {
                        proof {
                            crate::character::lemma_stats_positive(self.player);
                            crate::character::lemma_stats_positive(e);
                        }
                        self.gold = self.gold - cost;
                        let pd = 2 * self.player.strength();
                        e.take_damage(pd);
                        if e.is_dead() {
                            self.win_battle(e);
                            return Ok(true);
                        }
                        let ed = e.strength();
                        self.player.take_damage(ed);
                        if self.player.is_dead() {
                            self.settle_death();
                            return Err(GameError::CharacterDead);
                        }
                        self.in_combat = Some(e);
                        Ok(false)
                    },
                }
            },
        }
    }

    /// Uses a skill by name.  A name that denotes no skill fails with
    /// `UnknownSkill`, distinctly from using a known skill that was
    /// never learned.
    pub fn use_skill_by_name(&mut self, name: &String) -> (r: Result<bool, GameError>)
        requires
            old(self).wf(),
        ensures
            crate::character::skill_of_name(name@) is None ==> r == Err::<bool, GameError>(
                GameError::UnknownSkill,
            ) && *final(self) == *old(self),
            match crate::character::skill_of_name(name@) {
                None => true,
                Some(s) => !old(self).player.skills@.contains(s) ==> r == Err::<bool, GameError>(
                    GameError::SkillNotLearned,
                ) && *final(self) == *old(self),
            },
            final(self).wf(),
    {
        match Skill::from_name(name) {
            None => Err(GameError::UnknownSkill),
            Some(s) => self.use_skill(s),
        }
    }

    /// Potentially starts a battle at the current location,
    /// independently of movement: a spawned enemy fills the combat
    /// slot, to be resolved by the combat verbs.  Requires the
    /// encounter slot to be empty.
    pub fn battle(&mut self) -> (r: Result<bool, GameError>)
        requires
            old(self).wf(),
        ensures
            old(self).in_combat is Some || old(self).in_encounter is Some ==> r == Err::<
                bool,
                GameError,
            >(GameError::InvalidAction) && *final(self) == *old(self),
            !(old(self).in_combat is Some || old(self).in_encounter is Some) ==> ({
                &&& r is Ok
                &&& (r == Ok::<bool, GameError>(false) ==> *final(self) == *old(self))
                &&& (r == Ok::<bool, GameError>(true) ==> (match final(self).in_combat {
                    Some(e) => e.wf() && 1 <= e.level,
                    None => false,
                }) && *final(self) == (Game { in_combat: final(self).in_combat, ..*old(self) }))
                &&& (spec_evasion(old(self).player.left_ring, old(self).player.right_ring) ==> r
                    == Ok::<bool, GameError>(false))
                &&& (old(self).rng.fixed_val() matches Some(v) ==> {
                    &&& (r == Ok::<bool, GameError>(true) <==> (!spec_evasion(
                        old(self).player.left_ring,
                        old(self).player.right_ring,
                    ) && (v % 100) < appear_chance(old(self).location.distance.len as int)))
                    &&& (match final(self).in_combat {
                        Some(e) => enemy::spawn_result_matches(
                            old(self).player,
                            old(self).location,
                            old(self).quests.spec_guardian_pending(),
                            v,
                            e,
                        ),
                        None => true,
                    })
                })
            }),
            final(self).wf(),
    {
        if self.in_combat.is_some() || self.in_encounter.is_some() {
            return Err(GameError::InvalidAction);
        }
        let pending = self.quests.guardian_pending();
        match enemy::spawn(&self.player, &self.location, pending, &self.rng) {
            Some(e) => {
                self.in_combat = Some(e);
                Ok(true)
            },
            None => Ok(false),
        }
    }

    /// Runs a battle to its end, exchange by exchange, against an
    /// enemy that never enters the slot: either the enemy falls and the
    /// victory is booked, or the hero falls and the death pipeline
    /// runs.
    fn auto_battle(&mut self, enemy: Character) -> (r: Result<(), GameError>)
        requires
            old(self).wf(),
            enemy.wf(),
            0 < enemy.current_hp,
            0 < old(self).player.current_hp,
            old(self).in_combat is None,
            old(self).in_encounter is None,
        ensures
            r == Ok::<(), GameError>(()) || r == Err::<(), GameError>(GameError::CharacterDead),
            r == Ok::<(), GameError>(()) ==> ({
                &&& final(self).gold == sat_add(
                    sat_add(old(self).gold as int, spec_gold_reward(enemy)),
                    dispatch_reward(
                        old(self).quests.quests@,
                        Event::BattleWon { enemy_name: enemy.class.name },
                    ),
                )
                &&& final(self).quests.quests@ == quests_after(
                    old(self).quests.quests@,
                    Event::BattleWon { enemy_name: enemy.class.name },
                )
                &&& ({
                    let after = char_after_xp(old(self).player, spec_xp_reward(enemy));
                    &&& final(self).player.level == after.level
                    &&& final(self).player.xp == after.xp
                    &&& final(self).player == (Character {
                        level: final(self).player.level,
                        xp: final(self).player.xp,
                        current_hp: final(self).player.current_hp,
                        ..old(self).player
                    })
                    &&& (final(self).player.level != old(self).player.level ==> final(self).player.current_hp == final(self).player.spec_max_hp())
                    &&& (final(self).player.level == old(self).player.level ==> 0 < final(self).player.current_hp <= old(self).player.current_hp)
                })
                &&& *final(self) == (Game {
                    player: final(self).player,
                    gold: final(self).gold,
                    quests: final(self).quests,
                    ..*old(self)
                })
                &&& old(self).gold <= final(self).gold
                &&& (old(self).gold + spec_gold_reward(enemy) <= i64::MAX ==> old(self).gold
                    + spec_gold_reward(enemy) <= final(self).gold)
            }),
            r == Err::<(), GameError>(GameError::CharacterDead) ==> death_settled(
                *old(self),
                *final(self),
            ),
            ({
                let duel = spec_duel(
                    old(self).player.current_hp as int,
                    old(self).player.spec_strength(),
                    old(self).player.spec_speed(),
                    enemy.current_hp as int,
                    enemy.spec_strength(),
                    enemy.spec_speed(),
                );
                &&& (r == Ok::<(), GameError>(()) <==> duel is Some)
                &&& (duel matches Some(php) ==> (final(self).player.level == old(self).player.level
                    ==> final(self).player.current_hp == php))
            }),
            final(self).wf(),
    {
        let mut e = enemy;
        proof {
            crate::character::lemma_stats_positive(old(self).player);
        }
        loop
            invariant
                old(self).wf(),
                enemy.wf(),
                self.player.wf(),
                e.wf(),
                e == (Character { current_hp: e.current_hp, ..enemy }),
                0 < e.current_hp <= enemy.current_hp,
                self.player == (Character {
                    current_hp: self.player.current_hp,
                    ..old(self).player
                }),
                0 < self.player.current_hp <= old(self).player.current_hp,
                *self == (Game { player: self.player, ..*old(self) }),
                spec_duel(
                    old(self).player.current_hp as int,
                    old(self).player.spec_strength(),
                    old(self).player.spec_speed(),
                    enemy.current_hp as int,
                    enemy.spec_strength(),
                    enemy.spec_speed(),
                ) == spec_duel(
                    self.player.current_hp as int,
                    self.player.spec_strength(),
                    self.player.spec_speed(),
                    e.current_hp as int,
                    e.spec_strength(),
                    e.spec_speed(),
                ),
            decreases e.current_hp,
        {
            proof {
                crate::character::lemma_stats_positive(self.player);
                crate::character::lemma_stats_positive(e);
            }
            if self.player.speed() >= e.speed() {
                let pd = self.player.strength();
                e.take_damage(pd);
                if e.is_dead() {
                    self.win_battle(e);
                    return Ok(());
                }
                let ed = e.strength();
                self.player.take_damage(ed);
                if self.player.is_dead() {
                    self.settle_death();
                    return Err(GameError::CharacterDead);
                }
            } else {
                let ed = e.strength();
                self.player.take_damage(ed);
                if self.player.is_dead() {
                    self.settle_death();
                    return Err(GameError::CharacterDead);
                }
                let pd = self.player.strength();
                e.take_damage(pd);
                if e.is_dead() {
                    self.win_battle(e);
                    return Ok(());
                }
            }
        }
    }

    /// Moves the hero.  Movement first ticks any status effect — also
    /// under forced movement that bypasses combat, and a lethal tick
    /// runs the full death pipeline even though no combat occurred.
    /// Arriving home restores the hero; a non-forced arrival elsewhere
    /// may spawn an enemy (fought on the spot, to the end) or, failing
    /// that, an NPC encounter.
    pub fn change_dir(&mut self, dest: Location, force: bool) -> (r: Result<(), GameError>)
        requires
            old(self).wf(),
            dest.wf(),
        ensures
            old(self).in_combat is Some || old(self).in_encounter is Some ==> r == Err::<
                (),
                GameError,
            >(GameError::InvalidAction) && *final(self) == *old(self),
            !(old(self).in_combat is Some || old(self).in_encounter is Some) ==> ({
                let ticked = spec_after_tick(old(self).player);
                let healed = spec_home_refresh(ticked, dest.spec_is_home());
                &&& (ticked.current_hp == 0 ==> r == Err::<(), GameError>(GameError::CharacterDead)
                    && death_settled((Game { location: dest, ..*old(self) }), *final(self)))
                &&& (ticked.current_hp != 0 && force ==> r == Ok::<(), GameError>(()) && *final(self) == (Game { player: healed, location: dest, ..*old(self) }))
                &&& (ticked.current_hp != 0 && !force ==> {
                    &&& (r is Ok || r == Err::<(), GameError>(GameError::CharacterDead))
                    &&& (r is Ok ==> final(self).location == dest && final(self).in_combat is None)
                    &&& (r == Err::<(), GameError>(GameError::CharacterDead) ==> death_settled(
                        (Game { location: dest, ..*old(self) }),
                        *final(self),
                    ))
                    &&& (spec_evasion(old(self).player.left_ring, old(self).player.right_ring)
                        ==> r == Ok::<(), GameError>(()) && final(self).player == healed && final(self).gold == old(self).gold && final(self).tombstones == old(self).tombstones
                        && final(self).quests == old(self).quests)
                    &&& (old(self).rng.fixed_val() matches Some(v) ==> {
                        let gate = (v % 100) < appear_chance(dest.distance.len as int);
                        &&& (!gate ==> r == Ok::<(), GameError>(()) && *final(self) == (Game {
                            player: healed,
                            location: dest,
                            ..*old(self)
                        }))
                        &&& (gate && spec_evasion(
                            old(self).player.left_ring,
                            old(self).player.right_ring,
                        ) ==> r == Ok::<(), GameError>(()) && *final(self) == (Game {
                            player: healed,
                            location: dest,
                            in_encounter: Some(npc::spec_npc_of_roll((v % 3) as int)),
                            ..*old(self)
                        }))
                        &&& (gate && !spec_evasion(
                            old(self).player.left_ring,
                            old(self).player.right_ring,
                        ) ==> exists|e: Character|
                            {
                                &&& #[trigger] enemy::spawn_result_matches(
                                    healed,
                                    dest,
                                    old(self).quests.spec_guardian_pending(),
                                    v,
                                    e,
                                )
                                &&& e.wf()
                                &&& e.current_hp == e.spec_max_hp()
                                &&& match spec_duel(
                                    healed.current_hp as int,
                                    healed.spec_strength(),
                                    healed.spec_speed(),
                                    e.current_hp as int,
                                    e.spec_strength(),
                                    e.spec_speed(),
                                ) {
                                    Some(php) => {
                                        &&& r == Ok::<(), GameError>(())
                                        &&& final(self).gold == sat_add(
                                            sat_add(old(self).gold as int, spec_gold_reward(e)),
                                            dispatch_reward(
                                                old(self).quests.quests@,
                                                Event::BattleWon { enemy_name: e.class.name },
                                            ),
                                        )
                                        &&& final(self).quests.quests@ == quests_after(
                                            old(self).quests.quests@,
                                            Event::BattleWon { enemy_name: e.class.name },
                                        )
                                        &&& ({
                                            let after = char_after_xp(healed, spec_xp_reward(e));
                                            &&& final(self).player.level == after.level
                                            &&& final(self).player.xp == after.xp
                                        })
                                        &&& final(self).player == (Character {
                                            level: final(self).player.level,
                                            xp: final(self).player.xp,
                                            current_hp: final(self).player.current_hp,
                                            ..healed
                                        })
                                        &&& (final(self).player.level == healed.level ==> final(self).player.current_hp == php)
                                        &&& (final(self).player.level != healed.level ==> final(self).player.current_hp == final(self).player.spec_max_hp())
                                        &&& *final(self) == (Game {
                                            player: final(self).player,
                                            gold: final(self).gold,
                                            quests: final(self).quests,
                                            location: dest,
                                            ..*old(self)
                                        })
                                        &&& old(self).gold <= final(self).gold
                                        &&& (old(self).gold + spec_gold_reward(e) <= i64::MAX
                                            ==> old(self).gold + spec_gold_reward(e) <= final(self).gold)
                                    },
                                    None => r == Err::<(), GameError>(GameError::CharacterDead)
                                        && death_settled(
                                        (Game { location: dest, ..*old(self) }),
                                        *final(self),
                                    ),
                                }
                            })
                    })
                })
            }),
            final(self).wf(),
    {
        if self.in_combat.is_some() || self.in_encounter.is_some() {
            return Err(GameError::InvalidAction);
        }
        self.location = dest;
        let _delta = self.player.apply_status_tick();
        if self.player.is_dead() {
            self.settle_death();
            return Err(GameError::CharacterDead);
        }
        proof {
            crate::character::lemma_stats_positive(self.player);
        }
        if self.location.is_home() {
            self.player.heal_full();
            self.player.cure();
        }
        if force {
            return Ok(());
        }
        proof {
            crate::character::lemma_stats_positive(self.player);
        }
        let pending = self.quests.guardian_pending();
        match enemy::spawn(&self.player, &self.location, pending, &self.rng) {
            Some(e) => {
                proof {
                    crate::character::lemma_stats_positive(e);
                }
                let ghost spawned = e;
                let res = self.auto_battle(e);
                proof {
                    match old(self).rng.fixed_val() {
                        Some(v) => {
                            assert(enemy::spawn_result_matches(
                                spec_home_refresh(
                                    spec_after_tick(old(self).player),
                                    dest.spec_is_home(),
                                ),
                                dest,
                                old(self).quests.spec_guardian_pending(),
                                v,
                                spawned,
                            ));
                        },
                        None => {},
                    }
                }
                res
            },
            None => {
                match npc::spawn(&self.location, &self.rng) {
                    Some(k) => {
                        self.in_encounter = Some(k);
                        Ok(())
                    },
                    None => Ok(()),
                }
            },
        }
    }

    /// Buys an item from the shop: only at home, only with the price in
    /// gold.  The purchase lands in the inventory and is broadcast to
    /// the quest book.
    pub fn buy(&mut self, item: Key) -> (r: Result<(), GameError>)
        requires
            old(self).wf(),
        ensures
            !old(self).location.spec_is_home() ==> r == Err::<(), GameError>(
                GameError::InvalidAction,
            ) && *final(self) == *old(self),
            old(self).location.spec_is_home() && old(self).gold < item::spec_price(item) ==> r
                == Err::<(), GameError>(GameError::InsufficientGold) && *final(self) == *old(self),
            old(self).location.spec_is_home() && old(self).gold >= item::spec_price(item) ==> ({
                let paid = old(self).gold - item::spec_price(item);
                &&& r == Ok::<(), GameError>(())
                &&& final(self).inventory@ == old(self).inventory@.push(item)
                &&& final(self).quests.quests@ == quests_after(
                    old(self).quests.quests@,
                    Event::ItemAdded { item },
                )
                &&& final(self).gold == sat_add(
                    paid,
                    dispatch_reward(old(self).quests.quests@, Event::ItemAdded { item }),
                )
                &&& *final(self) == (Game {
                    inventory: final(self).inventory,
                    quests: final(self).quests,
                    gold: final(self).gold,
                    ..*old(self)
                })
            }),
            final(self).wf(),
    {
        if !self.location.is_home() {
            return Err(GameError::InvalidAction);
        }
        let p = item::price(item);
        if self.gold < p {
            return Err(GameError::InsufficientGold);
        }
        self.gold = self.gold - p;
        self.add_item(item);
        Ok(())
    }

    /// Uses an item from the inventory.  A potion heals half of max
    /// health; a ring is equipped (the evicted ring's key returns to
    /// the inventory); the amulet is passive and stays where it is.
    pub fn use_item(&mut self, item: Key) -> (r: Result<(), GameError>)
        requires
            old(self).wf(),
        ensures
            !old(self).inventory@.contains(item) ==> r == Err::<(), GameError>(
                GameError::InvalidAction,
            ) && *final(self) == *old(self),
            old(self).inventory@.contains(item) ==> ({
                let p = old(self).player;
                &&& r == Ok::<(), GameError>(())
                &&& (item == Key::Amulet ==> *final(self) == *old(self))
                &&& (item == Key::Potion ==> exists|i: int|
                    0 <= i < old(self).inventory@.len() && old(self).inventory@[i] == item && (
                    forall|j: int| 0 <= j < i ==> old(self).inventory@[j] != item) && final(self).inventory@ == old(self).inventory@.remove(i) && *final(self) == (Game {
                        inventory: final(self).inventory,
                        player: (Character {
                            current_hp: (if p.current_hp + p.spec_max_hp() / 2 > p.spec_max_hp() {
                                p.spec_max_hp()
                            } else {
                                p.current_hp + p.spec_max_hp() / 2
                            }) as i64,
                            ..p
                        }),
                        ..*old(self)
                    }))
                &&& (item.spec_ring() matches Some(ring) ==> exists|i: int|
                    0 <= i < old(self).inventory@.len() && old(self).inventory@[i] == item && (
                    forall|j: int| 0 <= j < i ==> old(self).inventory@[j] != item) && final(self).inventory@ == (match p.right_ring {
                        Some(ev) => old(self).inventory@.remove(i).push(Key::spec_of_ring(ev)),
                        None => old(self).inventory@.remove(i),
                    }) && *final(self) == (Game {
                        inventory: final(self).inventory,
                        player: (Character {
                            left_ring: Some(ring),
                            right_ring: p.left_ring,
                            ..p
                        }),
                        ..*old(self)
                    }))
            }),
            final(self).wf(),
    {
        let n = self.inventory.len();
        let mut i: usize = 0;
        while i < n
            invariant
                old(self).wf(),
                n == self.inventory@.len(),
                i <= n,
                *self == *old(self),
                forall|j: int| 0 <= j < i ==> old(self).inventory@[j] != item,
            decreases n - i,
        {
            if self.inventory[i] == item {
                match item.as_ring() {
                    Some(ring) => {
                        let _ = self.inventory.remove(i);
                        let evicted = self.player.equip_ring(ring);
                        if let Some(ev) = evicted {
                            self.inventory.push(Key::of_ring(ev));
                        }
                        return Ok(());
                    },
                    None => {
                        if matches!(item, Key::Potion) {
                            let _ = self.inventory.remove(i);
                            let max = self.player.max_hp();
                            self.player.heal(max / 2);
                            return Ok(());
                        }
                        return Ok(());
                    },
                }
            }
            i = i + 1;
        }
        Err(GameError::InvalidAction)
    }

    /// Changes the hero's class, allowed only at home and only to a
    /// catalog class: a fresh body of the new class at the same level,
    /// keeping earned experience.
    pub fn change_class(&mut self, name: &String) -> (r: Result<(), GameError>)
        requires
            old(self).wf(),
        ensures
            !old(self).location.spec_is_home() ==> r == Err::<(), GameError>(
                GameError::InvalidAction,
            ) && *final(self) == *old(self),
            old(self).location.spec_is_home() && !Class::spec_player_class_names().contains(name@)
                ==> r == Err::<(), GameError>(GameError::InvalidAction) && *final(self) == *old(self),
            old(self).location.spec_is_home() && Class::spec_player_class_names().contains(name@)
                ==> r == Ok::<(), GameError>(()) && final(self).player.class.name@ == name@
                && final(self).player.level == old(self).player.level && final(self).player.xp
                == old(self).player.xp && final(self).player.current_hp == final(self).player.spec_max_hp() && *final(self) == (Game {
                player: final(self).player,
                ..*old(self)
            }),
            final(self).wf(),
    {
        if !self.location.is_home() {
            return Err(GameError::InvalidAction);
        }
        match Class::player_by_name(name) {
            None => Err(GameError::InvalidAction),
            Some(c) => {
                let xp = self.player.xp;
                let level = self.player.level;
                self.player = Character::new(c, level);
                self.player.xp = xp;
                Ok(())
            },
        }
    }

    /// Developer cheat: restarts the run, then grants gold and levels
    /// up to the requested level (clamped into the valid range).
    pub fn debug_command(&mut self, level: i64)
        requires
            old(self).wf(),
        ensures
            final(self).player.level == clamp_level(level as int),
            final(self).player.xp == 0,
            final(self).player.class == old(self).player.class,
            final(self).player.current_hp == final(self).player.spec_max_hp(),
            final(self).player.left_ring is None,
            final(self).player.right_ring is None,
            final(self).player.status_effect is None,
            final(self).player.skills@ =~= Seq::<Skill>::empty(),
            final(self).gold == 5000 * clamp_level(level as int),
            final(self).location == (Location {
                id: 0u64,
                distance: Distance { len: 0i64 },
                rpg_dir: false,
            }),
            final(self).in_combat is None,
            final(self).in_encounter is None,
            final(self).tombstones == old(self).tombstones,
            final(self).quests == old(self).quests,
            final(self).inventory == old(self).inventory,
            final(self).hardcore == old(self).hardcore,
            final(self).rng == old(self).rng,
            final(self).wf(),
    {
        self.reset();
        let l: i64 = if level < 1 {
            1
        } else if level > crate::character::class::MAX_LEVEL {
            crate::character::class::MAX_LEVEL
        } else {
            level
        };
        self.gold = 5000 * l;
        let mut i: i64 = 1;
        while i < l
            invariant
                old(self).wf(),
                1 <= i <= l,
                l == clamp_level(level as int),
                self.player.level == i,
                self.player.xp == 0,
                self.player.wf(),
                self.gold == 5000 * l,
                self.player.class == old(self).player.class,
                self.player.current_hp == self.player.spec_max_hp(),
                self.player.left_ring is None,
                self.player.right_ring is None,
                self.player.status_effect is None,
                self.player.skills@ =~= Seq::<Skill>::empty(),
                *self == (Game {
                    player: self.player,
                    gold: self.gold,
                    location: self.location,
                    in_combat: None,
                    in_encounter: None,
                    ..*old(self)
                }),
                self.location == (Location {
                    id: 0u64,
                    distance: Distance { len: 0i64 },
                    rpg_dir: false,
                }),
                self.in_combat is None,
                self.in_encounter is None,
            decreases l - i,
        {
            let need = self.player.xp_for_next();
            proof {
                assert(level_up(i + 1, 0) == (i + 1, 0int));
            }
            self.player.add_experience(need);
            i = i + 1;
        }
    }
}

} // verus!
