use rpg_core::character::class::{Category, Class};
use rpg_core::character::enemy::{spawn, spawn_gorthaur, spawn_random};
use rpg_core::character::Character;
use rpg_core::item::ring::Ring;
use rpg_core::location::{Distance, Location};
use rpg_core::randomizer::Randomizer;

fn location_from(path: &str) -> Location {
    let mut id: u64 = 0;
    for b in path.bytes() {
        id = id.wrapping_mul(31).wrapping_add(b as u64);
    }
    let mut depth: i64 = 0;
    for part in path.split('/') {
        match part {
            "~" | "" | "." => {}
            _ => {
                depth += 1;
            }
        }
    }
    Location::new(id, Distance::from(depth), false)
}

#[test]
fn test_enemy_level() {
    let rng = Randomizer::Fixed(0);
    let mut player = Character::player();
    let d1 = Distance::from(1);
    let d2 = Distance::from(2);
    let d3 = Distance::from(3);
    let d10 = Distance::from(10);

    assert_eq!(1, spawn_random(&player, &d1, &rng).1);
    assert_eq!(1, spawn_random(&player, &d2, &rng).1);
    assert_eq!(2, spawn_random(&player, &d3, &rng).1);
    assert_eq!(9, spawn_random(&player, &d10, &rng).1);

    player.level = 5;
    assert_eq!(1, spawn_random(&player, &d1, &rng).1);
    assert_eq!(1, spawn_random(&player, &d2, &rng).1);
    assert_eq!(2, spawn_random(&player, &d3, &rng).1);
    assert_eq!(9, spawn_random(&player, &d10, &rng).1);

    player.level = 10;
    assert_eq!(1, spawn_random(&player, &d1, &rng).1);
    assert_eq!(2, spawn_random(&player, &d2, &rng).1);
    assert_eq!(3, spawn_random(&player, &d3, &rng).1);
    assert_eq!(10, spawn_random(&player, &d10, &rng).1);
}

#[test]
fn test_run_ring() {
    let rng = Randomizer::Fixed(0);
    let mut player = Character::player();
    let location = location_from("~/1/");
    assert!(spawn(&player, &location, false, &rng).is_some());

    player.equip_ring(Ring::Evade);
    assert!(spawn(&player, &location, false, &rng).is_none());

    player.equip_ring(Ring::Void);
    assert!(spawn(&player, &location, false, &rng).is_none());

    player.equip_ring(Ring::Void);
    assert!(spawn(&player, &location, false, &rng).is_some());
}

#[test]
fn spawn_random_picks_strongest_eligible_variant() {
    let rng = Randomizer::Fixed(0);
    let mut player = Character::player();
    // family 0 at low level: the common rat
    let (class, _) = spawn_random(&player, &Distance::from(1), &rng);
    assert_eq!("rat", class.name);
    assert_eq!(Category::Common, class.category);
    // at level 10 the legendary variant becomes eligible and has more health
    player.level = 10;
    let (class, _) = spawn_random(&player, &Distance::from(1), &rng);
    assert_eq!("rat king", class.name);
    assert_eq!(Category::Legendary, class.category);
    // family 2 below its rank requirement falls back to its first variant
    player.level = 1;
    let (class, _) = spawn_random(&player, &Distance::from(1), &Randomizer::Fixed(2));
    assert_eq!("basilisk", class.name);
}

#[test]
fn spawn_guardian_when_quest_pending_and_far() {
    let rng = Randomizer::Fixed(0);
    let player = Character::player();
    let far = location_from("~/a/b/c/d/e/f/g/h/i/j/k");
    assert_eq!(11, far.distance_from_home().len());
    let enemy = spawn(&player, &far, true, &rng).expect("guardian should spawn");
    assert_eq!("guardian", enemy.class.name);
    // player level + 5, minus one step of downward jitter
    assert_eq!(5, enemy.level);
    // without the pending quest the default spawn fires instead
    let enemy = spawn(&player, &far, false, &rng).unwrap();
    assert_eq!("rat", enemy.class.name);
}

#[test]
fn spawn_gorthaur_needs_ruling_ring_and_distance() {
    let mut player = Character::player();
    let far = Location::new(7, Distance::from(100), false);
    assert!(spawn_gorthaur(&player, &far).is_none());
    player.equip_ring(Ring::Ruling);
    assert!(spawn_gorthaur(&player, &location_from("~/1/")).is_none());
    let (class, level) = spawn_gorthaur(&player, &far).expect("final boss should spawn");
    assert_eq!("gorthaur", class.name);
    assert_eq!(Category::Legendary, class.category);
    // doubled base health and strength of the first catalog class
    let first = Class::player_first();
    assert_eq!(first.hp.0 * 2, class.hp.0);
    assert_eq!(first.strength.0 * 2, class.strength.0);
    assert_eq!(player.level, level);
}

#[test]
fn spawn_shadow_only_at_home() {
    let player = Character::player();
    let rng = Randomizer::Fixed(0);
    let home = Location::home();
    let enemy = spawn(&player, &home, false, &rng).expect("mirror should spawn on a zero roll");
    assert_eq!("shadow", enemy.class.name);
    assert_eq!(Category::Rare, enemy.class.category);
    // player level + 3, minus one step of downward jitter
    assert_eq!(3, enemy.level);
    // a non-zero roll in the one-in-ten gate spawns no mirror: the
    // default random spawn fires instead
    let rng_no = Randomizer::Fixed(1);
    let enemy = spawn(&player, &home, false, &rng_no).unwrap();
    assert_ne!("shadow", enemy.class.name);
}

#[test]
fn spawn_dev_in_data_dir() {
    let player = Character::player();
    let rng = Randomizer::Fixed(0);
    let data_dir = Location::new(9, Distance::from(3), true);
    let enemy = spawn(&player, &data_dir, false, &rng).unwrap();
    assert_eq!("dev", enemy.class.name);
    let first = Class::player_first();
    assert_eq!(first.hp.0 / 2, enemy.class.hp.0);
    assert_eq!(first.strength.0 / 2, enemy.class.strength.0);
    assert_eq!(first.speed.0 / 2, enemy.class.speed.0);
}

#[test]
fn appearance_gate_grows_with_distance() {
    // a roll of 50 fails the 10% chance at home but passes the
    // saturated 100% chance far away: frequency never decreases with
    // distance
    let rng = Randomizer::Fixed(50);
    assert!(!rng.should_enemy_appear(&Distance::from(0)));
    assert!(!rng.should_enemy_appear(&Distance::from(3)));
    assert!(rng.should_enemy_appear(&Distance::from(5)));
    assert!(rng.should_enemy_appear(&Distance::from(9)));
    assert!(rng.should_enemy_appear(&Distance::from(1000)));
}

#[test]
fn no_spawn_when_appearance_roll_fails() {
    // at one step from home the chance is 20%: a roll of 50 fails it
    let rng = Randomizer::Fixed(50);
    let player = Character::player();
    assert!(spawn(&player, &location_from("~/1/"), false, &rng).is_none());
}

#[test]
fn live_randomizer_stays_in_range() {
    let rng = Randomizer::Live;
    for n in [1u32, 2, 3, 10, 100] {
        for _ in 0..20 {
            assert!(rng.range(n) < n);
        }
    }
    for _ in 0..20 {
        let lvl = rng.enemy_level(5);
        assert!((4..=6).contains(&lvl));
        assert!(rng.enemy_level(1) >= 1);
        assert!(rng.enemy_level(0) >= 1);
    }
}
