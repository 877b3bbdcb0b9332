//! The static catalog of character archetypes: player-selectable classes
//! and the enemy families, each with base stats and a growth curve.
//!
//! Catalog data is immutable; instantiating a character takes its own
//! snapshot of a class, so a spawned enemy's class may be mutated (for
//! example doubled) without touching the catalog.

use vstd::prelude::*;

verus! {

/// Upper bound on any stat base or growth the engine accepts; keeps every
/// effective stat inside `i64`.
pub const STAT_MAX: i64 = 1_000_000;

/// The level cap: progression never passes it.
pub const MAX_LEVEL: i64 = 1000;

/// Class rank, gating spawn eligibility by player level.
#[derive(Clone, Copy, Debug, PartialEq, Eq, Structural)]
pub enum Category {
    Player,
    Common,
    Rare,
    Legendary,
}

/// Minimum player level at which enemies of the category may be chosen
/// by the default random spawn.
pub open spec fn tier_requirement(c: Category) -> int {
    match c {
        Category::Common => 1,
        Category::Rare => 5,
        Category::Legendary => 10,
        Category::Player => 1,
    }
}

/// A stat curve: base value and per-level growth.
#[derive(Clone, Copy, Debug, PartialEq, Eq, Structural)]
pub struct Stat(pub i64, pub i64);

impl Stat {
    /// A stat is valid when its base is positive and both parts are
    /// bounded; growth is non-negative, so stats never decrease with
    /// level.
    pub open spec fn wf(self) -> bool {
        1 <= self.0 <= STAT_MAX && 0 <= self.1 <= STAT_MAX
    }

    /// Effective value at the given level: base plus growth for each
    /// level past the first.
    pub open spec fn spec_at(self, level: int) -> int {
        self.0 + self.1 * (level - 1)
    }

    /// Effective value at the given level.
    pub fn at(&self, level: i64) -> (r: i64)
        requires
            self.wf(),
            1 <= level <= MAX_LEVEL,
        ensures
            r == self.spec_at(level as int),
            1 <= r <= STAT_MAX + STAT_MAX * (MAX_LEVEL - 1),
    {
        proof {
            assert(0 <= self.1 * (level - 1) <= STAT_MAX * (MAX_LEVEL - 1))
                by (nonlinear_arith)
                requires
                    0 <= self.1 <= STAT_MAX,
                    0 <= level - 1 <= MAX_LEVEL - 1,
            ;
        }
        self.0 + self.1 * (level - 1)
    }
}

/// A character archetype: display name, the enemy family it belongs to
/// (variants of one family share it, mirroring the shared first word of
/// their names), its rank, and the three stat curves.
#[derive(Debug)]
pub struct Class {
    pub name: String,
    /// Index of the enemy family this class is a variant of; player
    /// classes all carry 0.
    pub family: u32,
    pub category: Category,
    pub hp: Stat,
    pub strength: Stat,
    pub speed: Stat,
}

impl Class {
    pub open spec fn wf(self) -> bool {
        self.hp.wf() && self.strength.wf() && self.speed.wf()
    }
}

impl Clone for Class {
    /// An exact snapshot of the class.
    fn clone(&self) -> (r: Class)
        ensures
            r == *self,
    {
        Class {
            name: self.name.clone(),
            family: self.family,
            category: self.category,
            hp: self.hp,
            strength: self.strength,
            speed: self.speed,
        }
    }
}

/// Whether a class has exactly the given name, family, category and stat
/// curves.
pub open spec fn class_is(
    c: Class,
    name: Seq<char>,
    family: u32,
    category: Category,
    hp: Stat,
    strength: Stat,
    speed: Stat,
) -> bool {
    &&& c.name@ == name
    &&& c.family == family
    &&& c.category == category
    &&& c.hp == hp
    &&& c.strength == strength
    &&& c.speed == speed
}

/// Builds one catalog entry.
fn mk(name: &str, family: u32, category: Category, hp: Stat, strength: Stat, speed: Stat) -> (r:
    Class)
    ensures
        class_is(r, name@, family, category, hp, strength, speed),
{
    Class { name: name.to_owned(), family, category, hp, strength, speed }
}

/// How many enemy families the catalog holds.
pub const NUM_ENEMY_FAMILIES: u32 = 3;

impl Class {
    /// The player-selectable classes.  The first entry is the default
    /// hero class; the last is the boss guardian, spawned by the quest
    /// chain rather than chosen by players.
    pub fn player_classes() -> (r: Vec<Class>)
        ensures
            r@.len() == 4,
            class_is(r@[0], "warrior"@, 0, Category::Player, Stat(30, 5), Stat(12, 3), Stat(10, 2)),
            class_is(r@[1], "thief"@, 0, Category::Player, Stat(24, 4), Stat(10, 3), Stat(14, 3)),
            class_is(r@[2], "mage"@, 0, Category::Player, Stat(20, 3), Stat(14, 4), Stat(9, 2)),
            class_is(r@[3], "guardian"@, 0, Category::Player, Stat(50, 8), Stat(16, 4), Stat(8, 2)),
            forall|i: int| 0 <= i < r@.len() ==> (#[trigger] r@[i]).wf(),
    {
        let mut v: Vec<Class> = Vec::new();
        v.push(mk("warrior", 0, Category::Player, Stat(30, 5), Stat(12, 3), Stat(10, 2)));
        v.push(mk("thief", 0, Category::Player, Stat(24, 4), Stat(10, 3), Stat(14, 3)));
        v.push(mk("mage", 0, Category::Player, Stat(20, 3), Stat(14, 4), Stat(9, 2)));
        v.push(mk("guardian", 0, Category::Player, Stat(50, 8), Stat(16, 4), Stat(8, 2)));
        v
    }

    /// The first catalog class, the default hero archetype.
    pub fn player_first() -> (r: Class)
        ensures
            class_is(r, "warrior"@, 0, Category::Player, Stat(30, 5), Stat(12, 3), Stat(10, 2)),
            r.wf(),
    {
        mk("warrior", 0, Category::Player, Stat(30, 5), Stat(12, 3), Stat(10, 2))
    }

    /// The guardian boss class.
    pub fn guardian() -> (r: Class)
        ensures
            class_is(r, "guardian"@, 0, Category::Player, Stat(50, 8), Stat(16, 4), Stat(8, 2)),
            r.wf(),
    {
        mk("guardian", 0, Category::Player, Stat(50, 8), Stat(16, 4), Stat(8, 2))
    }

    /// The enemy catalog.  Classes that share a family index are variants
    /// of one enemy kind at different ranks.
    pub fn enemies() -> (r: Vec<Class>)
        ensures
            r@.len() == 6,
            class_is(r@[0], "rat"@, 0, Category::Common, Stat(15, 2), Stat(3, 1), Stat(8, 2)),
            class_is(r@[1], "rat king"@, 0, Category::Legendary, Stat(45, 5), Stat(10, 2), Stat(9, 2)),
            class_is(r@[2], "wolf"@, 1, Category::Common, Stat(18, 3), Stat(6, 2), Stat(12, 2)),
            class_is(r@[3], "wolf alpha"@, 1, Category::Rare, Stat(28, 4), Stat(9, 2), Stat(14, 3)),
            class_is(r@[4], "basilisk"@, 2, Category::Rare, Stat(35, 4), Stat(11, 3), Stat(7, 1)),
            class_is(r@[5], "basilisk elder"@, 2, Category::Legendary, Stat(60, 6), Stat(14, 3), Stat(8, 1)),
            forall|i: int| 0 <= i < r@.len() ==> (#[trigger] r@[i]).wf(),
            forall|i: int| 0 <= i < r@.len() ==> (#[trigger] r@[i]).family < NUM_ENEMY_FAMILIES,
    {
        let mut v: Vec<Class> = Vec::new();
        v.push(mk("rat", 0, Category::Common, Stat(15, 2), Stat(3, 1), Stat(8, 2)));
        v.push(mk("rat king", 0, Category::Legendary, Stat(45, 5), Stat(10, 2), Stat(9, 2)));
        v.push(mk("wolf", 1, Category::Common, Stat(18, 3), Stat(6, 2), Stat(12, 2)));
        v.push(mk("wolf alpha", 1, Category::Rare, Stat(28, 4), Stat(9, 2), Stat(14, 3)));
        v.push(mk("basilisk", 2, Category::Rare, Stat(35, 4), Stat(11, 3), Stat(7, 1)));
        v.push(mk("basilisk elder", 2, Category::Legendary, Stat(60, 6), Stat(14, 3), Stat(8, 1)));
        v
    }

    /// The names of the player-selectable classes, in catalog order.
    pub open spec fn spec_player_class_names() -> Seq<Seq<char>> {
        seq!["warrior"@, "thief"@, "mage"@, "guardian"@]
    }

    /// Looks a player-selectable class up by name; the guardian counts,
    /// as in the catalog.  Returns the class whose name matches exactly
    /// when the name is a catalog name.
    #[verifier::loop_isolation(false)]
    pub fn player_by_name(name: &String) -> (r: Option<Class>)
        ensures
            match r {
                Some(c) => c.wf() && c.name@ == name@ && c.category == Category::Player,
                None => true,
            },
            r is Some <==> Class::spec_player_class_names().contains(name@),
    {
        let mut classes = Class::player_classes();
        let mut i: usize = 0;
        proof {
            assert(Class::spec_player_class_names() =~= seq![
                "warrior"@,
                "thief"@,
                "mage"@,
                "guardian"@,
            ]);
        }
        while i < classes.len()
            invariant
                i <= classes@.len(),
                classes@.len() == 4,
                forall|j: int| 0 <= j < 4 ==> (#[trigger] classes@[j]).wf(),
                forall|j: int| 0 <= j < 4 ==> (#[trigger] classes@[j]).category == Category::Player,
                classes@[0].name@ == "warrior"@,
                classes@[1].name@ == "thief"@,
                classes@[2].name@ == "mage"@,
                classes@[3].name@ == "guardian"@,
                forall|j: int| 0 <= j < i ==> (#[trigger] classes@[j]).name@ != name@,
            decreases classes@.len() - i,
        {
            if classes[i].name == *name {
                proof {
                    assert(Class::spec_player_class_names()[i as int] == name@);
                }
                let c = classes.swap_remove(i);
                return Some(c);
            }
            i = i + 1;
        }
        proof {
            if Class::spec_player_class_names().contains(name@) {
                let k = choose|k: int|
                    0 <= k < 4 && Class::spec_player_class_names()[k] == name@;
                assert(classes@[k].name@ == name@);
                assert(false);
            }
        }
        None
    }

    /// Minimum player level required before this class may be chosen by
    /// the default random spawn.
    pub fn level_requirement(&self) -> (r: i64)
        ensures
            r == tier_requirement(self.category),
    {
        match self.category {
            Category::Common => 1,
            Category::Rare => 5,
            Category::Legendary => 10,
            Category::Player => 1,
        }
    }
}

} // verus!
