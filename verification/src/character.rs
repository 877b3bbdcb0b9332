//! Characters: the hero and the enemies spawned against it.
//!
//! A character owns a snapshot of its class, a level, experience,
//! current health, two ordered ring slots, at most one status effect and
//! the set of learned skills.

use vstd::prelude::*;
use crate::character::class::{Class, MAX_LEVEL, STAT_MAX};
use crate::item::ring::Ring;
use crate::GameError;

pub mod class;
pub mod enemy;
pub mod npc;

verus! {

/// Experience is stored saturated at this bound.
pub const XP_MAX: i64 = 1_000_000_000_000;

/// An ongoing condition, ticking once per location change regardless of
/// combat, until cured.
#[derive(Clone, Copy, Debug, PartialEq, Eq, Structural)]
pub enum StatusEffect {
    /// Damage over time: a twentieth of max health (at least 1) per tick.
    Burn,
}

/// A learnable combat skill.  Gold is the resource every skill consumes.
#[derive(Clone, Copy, Debug, PartialEq, Eq, Structural)]
pub enum Skill {
    /// Double-strength strike at the engaged enemy.
    Fireball,
    /// Restores half of max health.
    Heal,
    /// Removes the active status effect.
    Cure,
}

/// The skill a name denotes, if any.
pub open spec fn skill_of_name(s: Seq<char>) -> Option<Skill> {
    if s == "fireball"@ {
        Some(Skill::Fireball)
    } else if s == "heal"@ {
        Some(Skill::Heal)
    } else if s == "cure"@ {
        Some(Skill::Cure)
    } else {
        None
    }
}

impl Skill {
    /// Minimum character level before the skill can be learned.
    pub open spec fn spec_min_level(self) -> int {
        match self {
            Skill::Fireball => 1,
            Skill::Heal => 2,
            Skill::Cure => 3,
        }
    }

    /// Minimum character level before the skill can be learned.
    pub fn min_level(&self) -> (r: i64)
        ensures
            r == self.spec_min_level(),
    {
        match self {
            Skill::Fireball => 1,
            Skill::Heal => 2,
            Skill::Cure => 3,
        }
    }

    /// Gold the skill costs each use.
    pub open spec fn spec_cost(self) -> int {
        match self {
            Skill::Fireball => 10,
            Skill::Heal => 15,
            Skill::Cure => 20,
        }
    }

    /// Gold the skill costs each use.
    pub fn cost(&self) -> (r: i64)
        ensures
            r == self.spec_cost(),
            0 < r <= 20,
    {
        match self {
            Skill::Fireball => 10,
            Skill::Heal => 15,
            Skill::Cure => 20,
        }
    }

    /// Parses a skill name.
    pub fn from_name(name: &String) -> (r: Option<Skill>)
        ensures
            r == skill_of_name(name@),
    {
        if *name == "fireball".to_owned() {
            Some(Skill::Fireball)
        } else if *name == "heal".to_owned() {
            Some(Skill::Heal)
        } else if *name == "cure".to_owned() {
            Some(Skill::Cure)
        } else {
            None
        }
    }
}

/// Whether either slot holds the Evade ring; derived from slot contents
/// on every check, never cached.
pub open spec fn spec_evasion(left: Option<Ring>, right: Option<Ring>) -> bool {
    left == Some(Ring::Evade) || right == Some(Ring::Evade)
}

/// What equipping a ring does to the two ordered slots: the new ring
/// takes the first slot, the first slot's ring shifts to the second, and
/// the second slot's ring (the one equipped longest) is evicted.
pub open spec fn equip_model(slots: (Option<Ring>, Option<Ring>), r: Ring) -> (
    Option<Ring>,
    Option<Ring>,
) {
    (Some(r), slots.0)
}

/// FIFO eviction law: starting from any slots, equipping Evade and then
/// two more rings leaves evasion active exactly when one of the two
/// later rings is Evade again.
pub proof fn lemma_ring_fifo(slots: (Option<Ring>, Option<Ring>), r2: Ring, r3: Ring)
    ensures
        ({
            let s = equip_model(equip_model(equip_model(slots, Ring::Evade), r2), r3);
            spec_evasion(s.0, s.1) <==> (r2 == Ring::Evade || r3 == Ring::Evade)
        }),
{
}

/// Levels gained from stored experience: while the threshold for the
/// next level is reached and the cap is not, one level is consumed from
/// the experience pool.  Returns the final level and leftover experience.
pub open spec fn level_up(level: int, xp: int) -> (int, int)
    decreases MAX_LEVEL - level,
{
    if level < MAX_LEVEL && xp >= 100 * level {
        level_up(level + 1, xp - 100 * level)
    } else {
        (level, xp)
    }
}

/// Every effective stat of a valid character is positive and bounded:
/// bases are positive, growth never shrinks a stat, and the caps on
/// stats and levels keep every value well inside `i64`.
pub proof fn lemma_stats_positive(c: Character)
    requires
        c.wf(),
    ensures
        1 <= c.spec_max_hp() <= STAT_MAX + STAT_MAX * (MAX_LEVEL - 1),
        1 <= c.spec_strength() <= STAT_MAX + STAT_MAX * (MAX_LEVEL - 1),
        1 <= c.spec_speed() <= STAT_MAX + STAT_MAX * (MAX_LEVEL - 1),
{
    assert(0 <= c.class.hp.1 * (c.level - 1) <= STAT_MAX * (MAX_LEVEL - 1)) by (nonlinear_arith)
        requires
            0 <= c.class.hp.1 <= STAT_MAX && 0 <= c.level - 1 <= MAX_LEVEL - 1,
    ;
    assert(0 <= c.class.strength.1 * (c.level - 1) <= STAT_MAX * (MAX_LEVEL - 1))
        by (nonlinear_arith)
        requires
            0 <= c.class.strength.1 <= STAT_MAX && 0 <= c.level - 1 <= MAX_LEVEL - 1,
    ;
    assert(0 <= c.class.speed.1 * (c.level - 1) <= STAT_MAX * (MAX_LEVEL - 1)) by (nonlinear_arith)
        requires
            0 <= c.class.speed.1 <= STAT_MAX && 0 <= c.level - 1 <= MAX_LEVEL - 1,
    ;
}

/// A level clamped into the valid range `[1, MAX_LEVEL]`.
pub open spec fn clamp_level(l: int) -> int {
    if l < 1 {
        1
    } else if l > MAX_LEVEL {
        MAX_LEVEL as int
    } else {
        l
    }
}

/// A mutable game entity: the hero, or an ephemeral spawned enemy.
#[derive(Debug)]
pub struct Character {
    pub class: Class,
    pub level: i64,
    pub xp: i64,
    pub current_hp: i64,
    pub left_ring: Option<Ring>,
    pub right_ring: Option<Ring>,
    pub status_effect: Option<StatusEffect>,
    pub skills: Vec<Skill>,
}

impl Character {
    /// Validity: the class is well formed, the level is in range,
    /// experience is bounded, current health never exceeds max health
    /// (zero is the terminal dead state), and no skill is learned twice.
    pub open spec fn wf(self) -> bool {
        &&& self.class.wf()
        &&& 1 <= self.level <= MAX_LEVEL
        &&& 0 <= self.xp <= XP_MAX
        &&& 0 <= self.current_hp <= self.spec_max_hp()
        &&& forall|i: int, j: int|
            0 <= i < j < self.skills@.len() ==> self.skills@[i] != self.skills@[j]
    }

    pub open spec fn spec_max_hp(self) -> int {
        self.class.hp.spec_at(self.level as int)
    }

    pub open spec fn spec_strength(self) -> int {
        self.class.strength.spec_at(self.level as int)
    }

    pub open spec fn spec_speed(self) -> int {
        self.class.speed.spec_at(self.level as int)
    }

    pub open spec fn spec_dead(self) -> bool {
        self.current_hp == 0
    }

    /// Instantiates a character of the given class, at the given level
    /// clamped into range, with full health and nothing learned.
    pub fn new(class: Class, level: i64) -> (r: Character)
        requires
            class.wf(),
        ensures
            r.class == class,
            r.level == clamp_level(level as int),
            r.xp == 0,
            r.current_hp == r.spec_max_hp(),
            r.left_ring is None,
            r.right_ring is None,
            r.status_effect is None,
            r.skills@ =~= Seq::<Skill>::empty(),
            r.wf(),
    {
        let l: i64 = if level < 1 {
            1
        } else if level > MAX_LEVEL {
            MAX_LEVEL
        } else {
            level
        };
        let hp = class.hp.at(l);
        Character {
            class,
            level: l,
            xp: 0,
            current_hp: hp,
            left_ring: None,
            right_ring: None,
            status_effect: None,
            skills: Vec::new(),
        }
    }

    /// The starting hero: the first catalog class at level 1.
    pub fn player() -> (r: Character)
        ensures
            r.wf(),
            r.level == 1,
            class::class_is(
                r.class,
                "warrior"@,
                0,
                class::Category::Player,
                class::Stat(30, 5),
                class::Stat(12, 3),
                class::Stat(10, 2),
            ),
            r.current_hp == r.spec_max_hp(),
            r.xp == 0,
            r.left_ring is None,
            r.right_ring is None,
            r.status_effect is None,
            r.skills@ =~= Seq::<Skill>::empty(),
    {
        Character::new(Class::player_first(), 1)
    }

    /// Max health at the character's current level.
    pub fn max_hp(&self) -> (r: i64)
        requires
            self.wf(),
        ensures
            r == self.spec_max_hp(),
            1 <= r <= STAT_MAX + STAT_MAX * (MAX_LEVEL - 1),
    {
        self.class.hp.at(self.level)
    }

    /// Effective strength at the character's current level.
    pub fn strength(&self) -> (r: i64)
        requires
            self.wf(),
        ensures
            r == self.spec_strength(),
            1 <= r <= STAT_MAX + STAT_MAX * (MAX_LEVEL - 1),
    {
        self.class.strength.at(self.level)
    }

    /// Effective speed at the character's current level.
    pub fn speed(&self) -> (r: i64)
        requires
            self.wf(),
        ensures
            r == self.spec_speed(),
            1 <= r <= STAT_MAX + STAT_MAX * (MAX_LEVEL - 1),
    {
        self.class.speed.at(self.level)
    }

    pub fn is_dead(&self) -> (r: bool)
        ensures
            r == self.spec_dead(),
    {
        self.current_hp == 0
    }

    /// Equips a ring into the first slot, shifting the first slot's ring
    /// to the second and evicting the longest-equipped one.
    pub fn equip_ring(&mut self, ring: Ring) -> (evicted: Option<Ring>)
        ensures
            (final(self).left_ring, final(self).right_ring) == equip_model(
                (old(self).left_ring, old(self).right_ring),
                ring,
            ),
            evicted == old(self).right_ring,
            final(self).class == old(self).class,
            final(self).level == old(self).level,
            final(self).xp == old(self).xp,
            final(self).current_hp == old(self).current_hp,
            final(self).status_effect == old(self).status_effect,
            final(self).skills == old(self).skills,
            old(self).wf() ==> final(self).wf(),
    {
        let evicted = self.right_ring;
        self.right_ring = self.left_ring;
        self.left_ring = Some(ring);
        evicted
    }

    /// Whether encounters are currently suppressed: true exactly when
    /// either slot holds the Evade ring.
    pub fn enemies_evaded(&self) -> (r: bool)
        ensures
            r == spec_evasion(self.left_ring, self.right_ring),
    {
        self.left_ring == Some(Ring::Evade) || self.right_ring == Some(Ring::Evade)
    }

    /// Experience needed to go from the current level to the next: a
    /// monotonically increasing function of level.
    pub fn xp_for_next(&self) -> (r: i64)
        requires
            self.wf(),
        ensures
            r == 100 * self.level,
    {
        100 * self.level
    }

    /// Adds experience (saturating at the storage bound) and performs
    /// every level-up it pays for; each gained level recomputes max
    /// health and restores current health to the new max.
    pub fn add_experience(&mut self, amount: i64)
        requires
            old(self).wf(),
            0 <= amount,
        ensures
            ({
                let total = if old(self).xp + amount > XP_MAX {
                    XP_MAX as int
                } else {
                    old(self).xp + amount
                };
                let after = level_up(old(self).level as int, total);
                &&& final(self).level == after.0
                &&& final(self).xp == after.1
                &&& final(self).current_hp == if final(self).level != old(self).level {
                    final(self).spec_max_hp()
                } else {
                    old(self).current_hp as int
                }
            }),
            final(self).class == old(self).class,
            final(self).left_ring == old(self).left_ring,
            final(self).right_ring == old(self).right_ring,
            final(self).status_effect == old(self).status_effect,
            final(self).skills == old(self).skills,
            final(self).wf(),
            old(self).level <= final(self).level,
    {
        let ghost start_level = self.level as int;
        let ghost total: int = if self.xp + amount > XP_MAX {
            XP_MAX as int
        } else {
            self.xp + amount
        };
        if amount > XP_MAX - self.xp {
            self.xp = XP_MAX;
        } else {
            self.xp = self.xp + amount;
        }
        let mut leveled = false;
        while self.level < MAX_LEVEL && self.xp >= 100 * self.level
            invariant
                self.class == old(self).class,
                self.class.wf(),
                1 <= self.level <= MAX_LEVEL,
                0 <= self.xp <= XP_MAX,
                level_up(self.level as int, self.xp as int) == level_up(start_level, total),
                start_level <= self.level,
                leveled == (self.level != start_level),
                start_level == old(self).level,
                self.current_hp == old(self).current_hp,
                self.left_ring == old(self).left_ring,
                self.right_ring == old(self).right_ring,
                self.status_effect == old(self).status_effect,
                self.skills == old(self).skills,
            decreases MAX_LEVEL - self.level,
        {
            self.xp = self.xp - 100 * self.level;
            self.level = self.level + 1;
            leveled = true;
        }
        if leveled {
            let hp = self.class.hp.at(self.level);
            self.current_hp = hp;
        }
    }

    /// Suffers the given damage; health is floored at zero, the terminal
    /// dead state.
    pub fn take_damage(&mut self, damage: i64)
        requires
            old(self).wf(),
            0 <= damage,
        ensures
            final(self).current_hp == if old(self).current_hp - damage < 0 {
                0int
            } else {
                old(self).current_hp - damage
            },
            *final(self) == (Character { current_hp: final(self).current_hp, ..*old(self) }),
            final(self).wf(),
    {
        if damage > self.current_hp {
            self.current_hp = 0;
        } else {
            self.current_hp = self.current_hp - damage;
        }
    }

    /// Restores health to the maximum for the current level.
    pub fn heal_full(&mut self)
        requires
            old(self).wf(),
        ensures
            final(self).current_hp == final(self).spec_max_hp(),
            *final(self) == (Character { current_hp: final(self).current_hp, ..*old(self) }),
            final(self).wf(),
    {
        let hp = self.max_hp();
        self.current_hp = hp;
    }

    /// Removes the active status effect, if any.
    pub fn cure(&mut self)
        ensures
            final(self).status_effect is None,
            *final(self) == (Character { status_effect: None, ..*old(self) }),
            old(self).wf() ==> final(self).wf(),
    {
        self.status_effect = None;
    }

    /// Damage one status tick deals: a twentieth of max health, at
    /// least 1.
    pub open spec fn spec_burn_damage(self) -> int {
        if self.spec_max_hp() / 20 < 1 {
            1
        } else {
            self.spec_max_hp() / 20
        }
    }

    /// Applies one tick of the active status effect and reports the
    /// health lost.  The effect persists until explicitly cured; a tick
    /// may be lethal.
    pub fn apply_status_tick(&mut self) -> (delta: i64)
        requires
            old(self).wf(),
        ensures
            *final(self) == (Character { current_hp: final(self).current_hp, ..*old(self) }),
            old(self).status_effect is Some ==> old(self).status_effect == Some(StatusEffect::Burn),
            old(self).status_effect is None ==> *final(self) == *old(self) && delta == 0,
            old(self).status_effect == Some(StatusEffect::Burn) ==> {
                &&& delta == old(self).spec_burn_damage()
                &&& final(self).current_hp == if old(self).current_hp - delta < 0 {
                    0int
                } else {
                    old(self).current_hp - delta
                }
                &&& *final(self) == (Character { current_hp: final(self).current_hp, ..*old(self) })
            },
            final(self).wf(),
    {
        match self.status_effect {
            None => 0,
            Some(StatusEffect::Burn) => {
                let max = self.max_hp();
                let dmg: i64 = if max / 20 < 1 {
                    1
                } else {
                    max / 20
                };
                self.take_damage(dmg);
                dmg
            },
        }
    }

    /// Restores up to `amount` health, clamped at max health.
    pub fn heal(&mut self, amount: i64)
        requires
            old(self).wf(),
            0 <= amount,
        ensures
            final(self).current_hp == if old(self).current_hp + amount > old(self).spec_max_hp() {
                old(self).spec_max_hp()
            } else {
                old(self).current_hp + amount
            },
            *final(self) == (Character { current_hp: final(self).current_hp, ..*old(self) }),
            final(self).wf(),
    {
        let max = self.max_hp();
        if amount > max - self.current_hp {
            self.current_hp = max;
        } else {
            self.current_hp = self.current_hp + amount;
        }
    }

    /// Whether the skill has been learned.
    pub fn has_skill(&self, s: Skill) -> (r: bool)
        ensures
            r == self.skills@.contains(s),
    {
        let mut i: usize = 0;
        while i < self.skills.len()
            invariant
                i <= self.skills@.len(),
                forall|j: int| 0 <= j < i ==> self.skills@[j] != s,
            decreases self.skills@.len() - i,
        {
            if self.skills[i] == s {
                return true;
            }
            i = i + 1;
        }
        false
    }

    /// Learns a skill.  Fails when the skill is already known or the
    /// level prerequisite is unmet; exactly then nothing changes.
    pub fn learn_skill(&mut self, s: Skill) -> (r: Result<(), GameError>)
        requires
            old(self).wf(),
        ensures
            old(self).skills@.contains(s) || old(self).level < s.spec_min_level() ==> r
                == Err::<(), GameError>(GameError::InvalidAction) && *final(self) == *old(self),
            !(old(self).skills@.contains(s) || old(self).level < s.spec_min_level()) ==> r
                == Ok::<(), GameError>(()) && final(self).skills@ == old(self).skills@.push(s)
                && *final(self) == (Character { skills: final(self).skills, ..*old(self) }),
            final(self).wf(),
    {
        if self.has_skill(s) {
            return Err(GameError::InvalidAction);
        }
        if self.level < s.min_level() {
            return Err(GameError::InvalidAction);
        }
        self.skills.push(s);
        return Ok(());
    }
}

} // verus!
