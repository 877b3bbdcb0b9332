use rpg_core::character::class::{Class, Stat};
use rpg_core::character::npc::Encounter;
use rpg_core::character::{Character, StatusEffect};
use rpg_core::item::ring::Ring;
use rpg_core::game::Game;
use rpg_core::item::key::Key;
use rpg_core::location::{Distance, Location};
use rpg_core::randomizer::Randomizer;
use rpg_core::GameError;

fn location_from(path: &str) -> Location {
    let mut id: u64 = 0;
    for b in path.bytes() {
        id = id.wrapping_mul(31).wrapping_add(b as u64);
    }
    let mut depth: i64 = 0;
    for part in path.split('/') {
        match part {
            "~" | "" | "." => {}
            _ => {
                depth += 1;
            }
        }
    }
    Location::new(id, Distance::from(depth), false)
}

#[test]
fn change_dir_battle() {
    let mut game = Game::new_with(Randomizer::Fixed(0));

    // increase level to ensure win
    for _ in 0..5 {
        let xp = game.player.xp_for_next();
        game.player.add_experience(xp);
    }

    let result = game.change_dir(location_from("~/.."), false);

    assert!(result.is_ok());
    assert!(game.player.xp > 0);
    assert!(game.gold > 0);
}

#[test]
fn change_dir_dead() {
    let mut game = Game::new_with(Randomizer::Fixed(0));

    // reduce stats to ensure loss
    let weak_class = Class { hp: Stat(1, 1), speed: Stat(1, 1), ..game.player.class };
    game.player = Character::new(weak_class, 1);
    game.gold = 100;
    game.player.xp = 100;

    let result = game.change_dir(location_from("~/.."), false);

    assert!(result.is_err());

    // game reset
    assert_eq!(game.player.max_hp(), game.player.current_hp);
    assert_eq!(0, game.gold);
    assert_eq!(0, game.player.xp);
    assert!(!game.tombstones.is_empty());
}

#[test]
fn status_effect_dead() {
    let mut game = Game::new_with(Randomizer::Fixed(0));

    // reduce stats to ensure loss
    let weak_class = Class { hp: Stat(1, 1), speed: Stat(1, 1), ..game.player.class };
    game.player = Character::new(weak_class, 1);
    game.player.status_effect = Some(StatusEffect::Burn);
    game.gold = 100;
    game.player.xp = 100;

    // using force prevents battle but effects should apply anyway
    let result = game.change_dir(location_from("~/.."), true);

    assert!(result.is_err());
    assert_eq!(Err(GameError::CharacterDead), result);

    // game reset
    assert_eq!(game.player.max_hp(), game.player.current_hp);
    assert_eq!(0, game.gold);
    assert_eq!(0, game.player.xp);
    assert!(!game.tombstones.is_empty());
}

#[test]
fn change_dir_home() {
    let mut game = Game::new_with(Randomizer::Fixed(10));

    assert!(game.location.is_home());

    // force move to a non home location
    let result = game.change_dir(location_from("~/.."), true);
    assert!(result.is_ok());
    assert!(!game.location.is_home());

    game.player.current_hp = 1;

    // back home (without forcing)
    let result = game.change_dir(location_from("~"), false);
    assert!(result.is_ok());
    assert!(game.location.is_home());
    assert_eq!(game.player.max_hp(), game.player.current_hp);
}

#[test]
fn change_dir_home_force() {
    let mut game = Game::new_with(Randomizer::Fixed(10));

    assert!(game.location.is_home());

    // force move to a non home location
    let result = game.change_dir(location_from("~/.."), true);
    assert!(result.is_ok());
    assert!(!game.location.is_home());

    game.player.current_hp = 1;

    // force back home should restore hp
    let result = game.change_dir(location_from("~"), true);
    assert!(result.is_ok());
    assert!(game.location.is_home());
    assert_eq!(game.player.max_hp(), game.player.current_hp);
}

#[test]
fn inspect_tombstone() {
    // die at non home with some gold
    let mut game = Game::new_with(Randomizer::Fixed(0));
    assert!(game.tombstones.is_empty());

    // reduce stats to ensure loss
    game.player.current_hp = 1;

    game.gold = 100;
    assert!(game.change_dir(location_from("~/.."), false).is_err());

    assert_eq!(0, game.gold);
    assert!(!game.tombstones.is_empty());
    assert_eq!(100, game.tombstones[0].gold);

    // force move to the previous dead location
    game.change_dir(location_from("~/.."), true).unwrap();

    // inspect to pick up lost gold
    let recovered = game.inspect();
    assert_eq!(Some(100), recovered);
    assert!(game.tombstones.is_empty());

    // includes +200g for visit tombstone quest
    assert_eq!(300, game.gold);

    // a second visit finds no tombstone
    assert_eq!(None, game.inspect());
    assert_eq!(300, game.gold);
}

#[test]
fn npc_encounter_on_move_when_enemies_evaded() {
    let mut game = Game::new_with(Randomizer::Fixed(1));
    game.player.equip_ring(Ring::Evade);
    game.change_dir(location_from("~/a"), false).unwrap();
    assert!(game.in_combat.is_none());
    // the three-way roll lands on the witch
    assert_eq!(Some(Encounter::Witch), game.in_encounter);
    // moving while engaged is refused; the matching verb resolves it
    assert_eq!(
        Err(GameError::InvalidAction),
        game.change_dir(location_from("~/b"), false)
    );
    assert!(game.bet(1).is_err());
    assert!(game.brew().is_ok());
    assert!(game.in_encounter.is_none());
}

#[test]
fn second_death_replaces_tombstone() {
    let mut game = Game::new_with(Randomizer::Fixed(0));
    game.player.current_hp = 1;
    game.gold = 100;
    assert!(game.change_dir(location_from("~/.."), false).is_err());
    assert_eq!(1, game.tombstones.len());
    assert_eq!(100, game.tombstones[0].gold);

    // dying again at the same place leaves exactly one tombstone,
    // holding the gold of the later death
    game.player.current_hp = 1;
    game.gold = 40;
    assert!(game.change_dir(location_from("~/.."), false).is_err());
    assert_eq!(1, game.tombstones.len());
    assert_eq!(40, game.tombstones[0].gold);
}

#[test]
fn buy_use_item() {
    let mut game = Game::new_with(Randomizer::Fixed(10));
    assert!(game.inventory.is_empty());

    // not buy if not enough money
    let result = game.buy(Key::Potion);
    assert!(result.is_err());
    assert_eq!(Err(GameError::InsufficientGold), result);
    assert!(game.inventory.is_empty());

    // buy potion
    game.gold = 200;
    let result = game.buy(Key::Potion);
    assert!(result.is_ok());
    assert!(!game.inventory.is_empty());
    assert_eq!(0, game.gold);

    // use potion
    game.player.current_hp -= 1;
    let result = game.use_item(Key::Potion);
    assert!(result.is_ok());
    assert!(game.inventory.is_empty());
    assert_eq!(game.player.max_hp(), game.player.current_hp);

    // not buy if not home
    game.change_dir(location_from("~/.."), true).unwrap();

    game.gold = 200;
    let result = game.buy(Key::Potion);
    assert!(result.is_err());
    assert_eq!(Err(GameError::InvalidAction), result);
    assert!(game.inventory.is_empty());
}
