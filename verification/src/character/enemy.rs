//! The randomized encounter generator: decides whether, and what, an
//! enemy appears at a location, based on the hero's state and the
//! distance from home.
//!
//! Special spawns are tried in a fixed priority order — quest boss,
//! final boss, home mirror, data-directory easter egg — and only then
//! does the default random spawn pick an enemy family.

use vstd::prelude::*;
use crate::character::class::{class_is, tier_requirement, Category, Class, Stat, NUM_ENEMY_FAMILIES};
use crate::character::{clamp_level, spec_evasion, Character};
use crate::item::ring::Ring;
use crate::location::{Distance, Location};
use crate::randomizer::{appear_chance, jittered_level, Randomizer};

verus! {

/// Base level of the default random spawn for a player level and a
/// distance length: `max(level / 10 + distance - 1, 1)`; integer
/// division truncates.
pub open spec fn spec_spawn_level(level: int, distance: int) -> int
    recommends
        level >= 0,
        distance >= 0,
{
    if level / 10 + distance - 1 < 1 {
        1
    } else {
        level / 10 + distance - 1
    }
}

/// Whether the hero wears the Ruling ring in either slot.
pub open spec fn wearing_ruling(c: Character) -> bool {
    c.left_ring == Some(Ring::Ruling) || c.right_ring == Some(Ring::Ruling)
}

/// The final boss walks only for a hero wearing the Ruling ring at
/// least a hundred steps from home.
pub open spec fn gorthaur_condition(player: Character, location: Location) -> bool {
    wearing_ruling(player) && location.distance.len >= 100
}

/// The quest boss appears while its quest is pending, more than ten
/// steps from home.
pub open spec fn guardian_condition(guardian_quest_pending: bool, location: Location) -> bool {
    guardian_quest_pending && location.distance.len > 10
}

/// Whether `r` is `base` under another name and rank, stats untouched.
pub open spec fn renamed_of(r: Class, base: Class, name: Seq<char>, category: Category) -> bool {
    &&& r.name@ == name
    &&& r.family == base.family
    &&& r.category == category
    &&& r.hp == base.hp
    &&& r.strength == base.strength
    &&& r.speed == base.speed
}

/// The class the default random spawn picks for a rolled family `f` and
/// a player level: among the family's variants whose rank requirement
/// the level meets, the one with the highest base health; if none
/// qualifies, the family's first variant.
pub open spec fn spec_random_pick(c: Class, level: int, f: u32) -> bool {
    if f == 0 {
        if level >= 10 {
            class_is(c, "rat king"@, 0, Category::Legendary, Stat(45, 5), Stat(10, 2), Stat(9, 2))
        } else {
            class_is(c, "rat"@, 0, Category::Common, Stat(15, 2), Stat(3, 1), Stat(8, 2))
        }
    } else if f == 1 {
        if level >= 5 {
            class_is(c, "wolf alpha"@, 1, Category::Rare, Stat(28, 4), Stat(9, 2), Stat(14, 3))
        } else {
            class_is(c, "wolf"@, 1, Category::Common, Stat(18, 3), Stat(6, 2), Stat(12, 2))
        }
    } else {
        if level >= 10 {
            class_is(c, "basilisk elder"@, 2, Category::Legendary, Stat(60, 6), Stat(14, 3), Stat(8, 1))
        } else {
            class_is(c, "basilisk"@, 2, Category::Rare, Stat(35, 4), Stat(11, 3), Stat(7, 1))
        }
    }
}

/// Which spawn rule fires for a fixed roll `v`, in priority order:
/// 0 quest boss, 1 final boss, 2 home mirror, 3 easter egg, 4 default
/// random spawn.
pub open spec fn spec_spawn_case(
    player: Character,
    location: Location,
    guardian_quest_pending: bool,
    v: u32,
) -> int {
    if guardian_condition(guardian_quest_pending, location) {
        0
    } else if gorthaur_condition(player, location) {
        1
    } else if location.spec_is_home() && v % 10 == 0 {
        2
    } else if location.spec_is_rpg_dir() && v % 10 == 0 {
        3
    } else {
        4
    }
}

/// The pre-jitter level each spawn rule uses.
pub open spec fn spec_base_level(
    player: Character,
    location: Location,
    guardian_quest_pending: bool,
    v: u32,
) -> int {
    let c = spec_spawn_case(player, location, guardian_quest_pending, v);
    if c == 0 {
        player.level + 5
    } else if c == 1 {
        player.level as int
    } else if c == 2 {
        player.level + 3
    } else if c == 3 {
        player.level as int
    } else {
        spec_spawn_level(player.level as int, location.distance.len as int)
    }
}

/// Whether `e` is exactly the enemy the spawn chain produces for a
/// fixed roll `v`: the class of the rule that fires, at that rule's
/// base level with jitter applied (and clamped into the valid range).
pub open spec fn spawn_result_matches(
    player: Character,
    location: Location,
    guardian_quest_pending: bool,
    v: u32,
    e: Character,
) -> bool {
    let c = spec_spawn_case(player, location, guardian_quest_pending, v);
    &&& e.level == clamp_level(
        jittered_level(spec_base_level(player, location, guardian_quest_pending, v), (v % 3) as int),
    )
    &&& (c == 0 ==> class_is(
        e.class,
        "guardian"@,
        0,
        Category::Player,
        Stat(50, 8),
        Stat(16, 4),
        Stat(8, 2),
    ))
    &&& (c == 1 ==> class_is(
        e.class,
        "gorthaur"@,
        0,
        Category::Legendary,
        Stat(60, 5),
        Stat(24, 3),
        Stat(10, 2),
    ))
    &&& (c == 2 ==> renamed_of(e.class, player.class, "shadow"@, Category::Rare))
    &&& (c == 3 ==> class_is(e.class, "dev"@, 0, Category::Rare, Stat(15, 5), Stat(6, 3), Stat(5, 2)))
    &&& (c == 4 ==> spec_random_pick(e.class, player.level as int, v % 3))
}

/// Final boss: appears only for a hero wearing the Ruling ring a
/// hundred or more steps from home, as a doubled-stat, top-rank variant
/// of the first catalog class at the player's own level.
pub fn spawn_gorthaur(player: &Character, location: &Location) -> (r: Option<(Class, i64)>)
    requires
        player.wf(),
        location.wf(),
    ensures
        r is Some <==> gorthaur_condition(*player, *location),
        r matches Some(p) ==> p.1 == player.level && p.0.wf() && class_is(
            p.0,
            "gorthaur"@,
            0,
            Category::Legendary,
            Stat(60, 5),
            Stat(24, 3),
            Stat(10, 2),
        ),
{
    let wearing_ring = player.left_ring == Some(Ring::Ruling) || player.right_ring == Some(
        Ring::Ruling,
    );
    if wearing_ring && location.distance_from_home().len() >= 100 {
        let mut class = Class::player_first();
        class.name = "gorthaur".to_owned();
        class.hp = Stat(class.hp.0 * 2, class.hp.1);
        class.strength = Stat(class.strength.0 * 2, class.strength.1);
        class.category = Category::Legendary;
        Some((class, player.level))
    } else {
        None
    }
}

/// Home mirror: at the home directory only, with a one-in-ten roll, a
/// rare-rank copy of the player's own class at three levels above.
pub fn spawn_shadow(player: &Character, location: &Location, rng: &Randomizer) -> (r: Option<
    (Class, i64),
>)
    requires
        player.wf(),
        location.wf(),
    ensures
        !location.spec_is_home() ==> r is None,
        r matches Some(p) ==> location.spec_is_home() && p.1 == player.level + 3 && p.0.wf()
            && renamed_of(p.0, player.class, "shadow"@, Category::Rare),
        rng.fixed_val() matches Some(v) ==> (r is Some <==> (location.spec_is_home() && v % 10
            == 0)),
{
    if location.is_home() && rng.range(10) == 0 {
        let mut class = player.class.clone();
        class.name = "shadow".to_owned();
        class.category = Category::Rare;
        Some((class, player.level + 3))
    } else {
        None
    }
}

/// Easter egg: inside the game's own data directory, with a one-in-ten
/// roll, a halved-stat copy of the first catalog class at the player's
/// level.
pub fn spawn_dev(player: &Character, location: &Location, rng: &Randomizer) -> (r: Option<
    (Class, i64),
>)
    requires
        player.wf(),
        location.wf(),
    ensures
        !location.spec_is_rpg_dir() ==> r is None,
        r matches Some(p) ==> location.spec_is_rpg_dir() && p.1 == player.level && p.0.wf()
            && class_is(p.0, "dev"@, 0, Category::Rare, Stat(15, 5), Stat(6, 3), Stat(5, 2)),
        rng.fixed_val() matches Some(v) ==> (r is Some <==> (location.spec_is_rpg_dir() && v % 10
            == 0)),
{
    if location.is_rpg_dir() && rng.range(10) == 0 {
        let mut class = Class::player_first();
        class.name = "dev".to_owned();
        class.hp = Stat(class.hp.0 / 2, class.hp.1);
        class.strength = Stat(class.strength.0 / 2, class.strength.1);
        class.speed = Stat(class.speed.0 / 2, class.speed.1);
        class.category = Category::Rare;
        Some((class, player.level))
    } else {
        None
    }
}

/// Default random spawn: picks one enemy family uniformly, keeps the
/// variants whose rank requirement the player's level meets, takes the
/// one with the highest base health (falling back to the family's first
/// variant), and levels it by `max(level / 10 + distance - 1, 1)`.
#[verifier::loop_isolation(false)]
pub fn spawn_random(player: &Character, distance: &Distance, rng: &Randomizer) -> (r: (Class, i64))
    requires
        player.wf(),
        distance.wf(),
    ensures
        r.1 == spec_spawn_level(player.level as int, distance.len as int),
        r.0.wf(),
        r.0.family < NUM_ENEMY_FAMILIES,
        rng.fixed_val() matches Some(v) ==> spec_random_pick(
            r.0,
            player.level as int,
            v % NUM_ENEMY_FAMILIES,
        ),
{
    let enemies = Class::enemies();
    let fam = rng.range(NUM_ENEMY_FAMILIES);
    let mut first: Option<usize> = None;
    let mut best: Option<usize> = None;
    let mut i: usize = 0;
    while i < enemies.len()
        invariant
            i <= enemies@.len(),
            first is None ==> forall|j: int| 0 <= j < i ==> (#[trigger] enemies@[j]).family != fam,
            first matches Some(fi) ==> fi < i && enemies@[fi as int].family == fam && forall|j: int|
                0 <= j < fi ==> (#[trigger] enemies@[j]).family != fam,
            best is None ==> forall|j: int|
                0 <= j < i && (#[trigger] enemies@[j]).family == fam ==> tier_requirement(
                    enemies@[j].category,
                ) > player.level,
            best matches Some(bi) ==> bi < i && enemies@[bi as int].family == fam
                && tier_requirement(enemies@[bi as int].category) <= player.level && forall|j: int|
                0 <= j < i && (#[trigger] enemies@[j]).family == fam && tier_requirement(
                    enemies@[j].category,
                ) <= player.level ==> enemies@[j].hp.0 <= enemies@[bi as int].hp.0,
        decreases enemies@.len() - i,
    {
        if enemies[i].family == fam {
            if first.is_none() {
                first = Some(i);
            }
            if enemies[i].level_requirement() <= player.level {
                let take = match best {
                    None => true,
                    Some(b) => enemies[i].hp.0 > enemies[b].hp.0,
                };
                if take {
                    best = Some(i);
                }
            }
        }
        i = i + 1;
    }
    proof {
        if first is None {
            if fam == 0 {
                assert(enemies@[0].family == 0);
            } else if fam == 1 {
                assert(enemies@[2].family == 1);
            } else {
                assert(enemies@[4].family == 2);
            }
            assert(false);
        }
    }
    let idx = match best {
        Some(b) => b,
        None => first.unwrap(),
    };
    proof {
        let es = enemies@;
        let lvl = player.level as int;
        if rng.fixed_val() is Some {
            assert(es[0].family == 0 && es[1].family == 0);
            assert(es[2].family == 1 && es[3].family == 1);
            assert(es[4].family == 2 && es[5].family == 2);
            if fam == 0 {
                if lvl >= 10 {
                    assert(idx == 1);
                } else {
                    assert(idx == 0);
                }
            } else if fam == 1 {
                if lvl >= 5 {
                    assert(idx == 3);
                } else {
                    assert(idx == 2);
                }
            } else {
                if lvl >= 10 {
                    assert(idx == 5);
                } else {
                    assert(idx == 4);
                }
            }
        }
    }
    let class = enemies[idx].clone();
    let tenth = player.level / 10;
    let shifted = tenth + distance.len();
    let level: i64 = if shifted - 1 < 1 {
        1
    } else {
        shifted - 1
    };
    (class, level)
}

/// Randomly spawns an enemy at the given location from the hero's
/// current state.  Evasion suppresses every encounter; the distance
/// from home drives both frequency and level; quest state, rings and
/// special places may force one of the special spawns.  The resulting
/// level carries bounded jitter and is instantiated as a fresh
/// character.
pub fn spawn(
    player: &Character,
    location: &Location,
    guardian_quest_pending: bool,
    rng: &Randomizer,
) -> (r: Option<Character>)
    requires
        player.wf(),
        location.wf(),
    ensures
        spec_evasion(player.left_ring, player.right_ring) ==> r is None,
        r matches Some(e) ==> !spec_evasion(player.left_ring, player.right_ring) && e.wf()
            && 1 <= e.level && e.current_hp == e.spec_max_hp(),
        rng.fixed_val() matches Some(v) ==> {
            let evaded = spec_evasion(player.left_ring, player.right_ring);
            let appear = (v % 100) < appear_chance(location.distance.len as int);
            &&& (r is None <==> (evaded || !appear))
            &&& (r matches Some(e) ==> spawn_result_matches(
                *player,
                *location,
                guardian_quest_pending,
                v,
                e,
            ))
        },
{
    if player.enemies_evaded() {
        return None;
    }
    let distance = location.distance_from_home();
    if !rng.should_enemy_appear(&distance) {
        return None;
    }
    let (class, level) = if guardian_quest_pending && distance.len() > 10 {
        (Class::guardian(), player.level + 5)
    } else if let Some(p) = spawn_gorthaur(player, location) {
        p
    } else if let Some(p) = spawn_shadow(player, location, rng) {
        p
    } else if let Some(p) = spawn_dev(player, location, rng) {
        p
    } else {
        spawn_random(player, &distance, rng)
    };
    let level = rng.enemy_level(level);
    Some(Character::new(class, level))
}

} // verus!
