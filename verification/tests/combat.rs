use rpg_core::character::class::Class;
use rpg_core::character::npc::Encounter;
use rpg_core::character::{Character, Skill, StatusEffect};
use rpg_core::game::Game;
use rpg_core::item::key::Key;
use rpg_core::item::ring::Ring;
use rpg_core::randomizer::Randomizer;
use rpg_core::GameError;

fn rat() -> Character {
    let enemies = Class::enemies();
    Character::new(enemies[0].clone(), 1)
}

#[test]
fn attack_requires_an_enemy() {
    let mut game = Game::new_with(Randomizer::Fixed(10));
    assert_eq!(Err(GameError::InvalidAction), game.attack());
    assert_eq!(Err(GameError::InvalidAction), game.flee());
    assert_eq!(Err(GameError::InvalidAction), game.bribe());
}

#[test]
fn attack_exchange_and_victory() {
    let mut game = Game::new_with(Randomizer::Fixed(10));
    game.in_combat = Some(rat());
    // the faster hero strikes for 12; the rat (15 hp) survives and
    // retaliates for 3
    assert_eq!(Ok(false), game.attack());
    assert_eq!(27, game.player.current_hp);
    assert_eq!(3, game.in_combat.as_ref().unwrap().current_hp);
    // the second exchange fells it: 10 experience and 50 gold per level
    assert_eq!(Ok(true), game.attack());
    assert!(game.in_combat.is_none());
    assert_eq!(10, game.player.xp);
    assert_eq!(50, game.gold);
}

#[test]
fn flee_success_and_failure() {
    // roll 0 always beats the flee chance: the slot clears, no reward
    let mut game = Game::new_with(Randomizer::Fixed(0));
    game.in_combat = Some(rat());
    assert_eq!(Ok(true), game.flee());
    assert!(game.in_combat.is_none());
    assert_eq!(30, game.player.current_hp);

    // chance is 50 + 10 - 8 = 52: a roll of 99 fails and costs one
    // enemy strike
    let mut game = Game::new_with(Randomizer::Fixed(99));
    game.in_combat = Some(rat());
    assert_eq!(Ok(false), game.flee());
    assert!(game.in_combat.is_some());
    assert_eq!(27, game.player.current_hp);
}

#[test]
fn bribe_costs_gold_or_provokes() {
    // a level-1 enemy asks 30 gold
    let mut game = Game::new_with(Randomizer::Fixed(0));
    game.in_combat = Some(rat());
    assert_eq!(Err(GameError::InsufficientGold), game.bribe());
    assert!(game.in_combat.is_some());

    game.gold = 100;
    assert_eq!(Ok(true), game.bribe());
    assert_eq!(70, game.gold);
    assert!(game.in_combat.is_none());

    // a failed roll keeps the gold but provokes one strike
    let mut game = Game::new_with(Randomizer::Fixed(1));
    game.gold = 100;
    game.in_combat = Some(rat());
    assert_eq!(Ok(false), game.bribe());
    assert_eq!(100, game.gold);
    assert_eq!(27, game.player.current_hp);
    assert!(game.in_combat.is_some());
}

#[test]
fn engaged_hero_cannot_move_or_start_another_battle() {
    let mut game = Game::new_with(Randomizer::Fixed(0));
    game.in_combat = Some(rat());
    let away = rpg_core::location::Location::new(
        4,
        rpg_core::location::Distance::from(2),
        false,
    );
    assert_eq!(Err(GameError::InvalidAction), game.change_dir(away, false));
    assert_eq!(Err(GameError::InvalidAction), game.battle());
    assert!(game.in_combat.is_some());
}

#[test]
fn bet_with_the_gambler() {
    let mut game = Game::new_with(Randomizer::Fixed(0));
    assert_eq!(Err(GameError::InvalidAction), game.bet(10));
    game.in_encounter = Some(Encounter::Gambler);
    game.gold = 100;
    assert_eq!(Err(GameError::InsufficientGold), game.bet(200));
    assert_eq!(Ok(true), game.bet(60));
    assert_eq!(160, game.gold);
    assert!(game.in_encounter.is_none());

    let mut game = Game::new_with(Randomizer::Fixed(1));
    game.in_encounter = Some(Encounter::Gambler);
    game.gold = 100;
    assert_eq!(Ok(false), game.bet(60));
    assert_eq!(40, game.gold);
    assert!(game.in_encounter.is_none());
}

#[test]
fn zero_bet_still_settles_the_flip() {
    // a penniless hero may still flip the coin: the encounter resolves
    // and no gold moves either way
    let mut game = Game::new_with(Randomizer::Fixed(1));
    game.in_encounter = Some(Encounter::Gambler);
    assert_eq!(Ok(false), game.bet(0));
    assert_eq!(0, game.gold);
    assert!(game.in_encounter.is_none());

    // a negative bet stays malformed
    let mut game = Game::new_with(Randomizer::Fixed(0));
    game.in_encounter = Some(Encounter::Gambler);
    assert_eq!(Err(GameError::InvalidAction), game.bet(-1));
    assert!(game.in_encounter.is_some());
}

#[test]
fn brew_and_listen_resolve_their_npcs() {
    let mut game = Game::new_with(Randomizer::Fixed(2));
    // the single matching verb is required
    game.in_encounter = Some(Encounter::Witch);
    assert_eq!(Err(GameError::InvalidAction), game.bet(1));
    assert!(game.listen().is_err());
    assert!(game.in_encounter.is_some());
    assert!(game.brew().is_ok());
    assert!(game.in_encounter.is_none());
    assert_eq!(vec![Key::Potion], game.inventory);

    game.in_encounter = Some(Encounter::GhostlyMaiden);
    assert!(game.brew().is_err());
    assert_eq!(Ok(2), game.listen());
    assert!(game.in_encounter.is_none());
}

#[test]
fn skills_learning_and_use() {
    let mut game = Game::new_with(Randomizer::Fixed(10));
    // unknown name vs known but unlearned skill: distinct errors
    assert_eq!(
        Err(GameError::UnknownSkill),
        game.use_skill_by_name(&"dance".to_string())
    );
    assert_eq!(Err(GameError::SkillNotLearned), game.use_skill(Skill::Fireball));

    // cure needs level 3
    assert_eq!(Err(GameError::InvalidAction), game.player.learn_skill(Skill::Cure));
    assert_eq!(Ok(()), game.player.learn_skill(Skill::Fireball));
    assert_eq!(Err(GameError::InvalidAction), game.player.learn_skill(Skill::Fireball));

    // a learned skill still needs its resource cost
    game.gold = 5;
    assert_eq!(Err(GameError::InsufficientResources), game.use_skill(Skill::Fireball));

    // the fireball needs an engaged enemy
    game.gold = 10;
    assert_eq!(Err(GameError::InvalidAction), game.use_skill(Skill::Fireball));

    // a double-strength strike (24) fells the 15 hp rat at once
    game.in_combat = Some(rat());
    assert_eq!(Ok(true), game.use_skill(Skill::Fireball));
    assert_eq!(50, game.gold);  // 10 paid, 50 won
    assert_eq!(10, game.player.xp);
}

#[test]
fn heal_skill_restores_half() {
    let mut game = Game::new_with(Randomizer::Fixed(10));
    let xp = game.player.xp_for_next();
    game.player.add_experience(xp);
    assert_eq!(2, game.player.level);
    assert_eq!(Ok(()), game.player.learn_skill(Skill::Heal));
    game.gold = 15;
    game.player.current_hp = 1;
    assert_eq!(Ok(false), game.use_skill(Skill::Heal));
    // half of the level-2 max (35) is 17
    assert_eq!(18, game.player.current_hp);
    assert_eq!(0, game.gold);
}

#[test]
fn cure_skill_removes_status() {
    let mut game = Game::new_with(Randomizer::Fixed(10));
    game.player.level = 3;
    assert_eq!(Ok(()), game.player.learn_skill(Skill::Cure));
    game.player.status_effect = Some(StatusEffect::Burn);
    game.gold = 20;
    assert_eq!(Ok(false), game.use_skill(Skill::Cure));
    assert!(game.player.status_effect.is_none());
}

#[test]
fn ring_fifo_eviction_restores_evasion_law() {
    let mut player = Character::player();
    assert!(!player.enemies_evaded());
    player.equip_ring(Ring::Evade);
    assert!(player.enemies_evaded());
    player.equip_ring(Ring::Void);
    assert!(player.enemies_evaded());
    // the third equip evicts Evade: neither of the last two was Evade
    player.equip_ring(Ring::Void);
    assert!(!player.enemies_evaded());
    // equipping Evade again within the last two restores it
    player.equip_ring(Ring::Evade);
    assert!(player.enemies_evaded());
}

#[test]
fn rings_equip_through_inventory() {
    let mut game = Game::new_with(Randomizer::Fixed(10));
    game.gold = 600;
    assert!(game.buy(Key::EvadeRing).is_ok());
    assert_eq!(100, game.gold);
    assert!(game.use_item(Key::EvadeRing).is_ok());
    assert!(game.inventory.is_empty());
    assert_eq!(Some(Ring::Evade), game.player.left_ring);
    assert!(game.player.enemies_evaded());
    // the evicted ring's key returns to the inventory
    assert!(game.buy(Key::VoidRing).is_ok());
    assert!(game.use_item(Key::VoidRing).is_ok());
    game.inventory.clear();
    game.add_item(Key::RulingRing);
    assert!(game.use_item(Key::RulingRing).is_ok());
    assert_eq!(vec![Key::EvadeRing], game.inventory);
    assert_eq!(Some(Ring::Ruling), game.player.left_ring);
    assert_eq!(Some(Ring::Void), game.player.right_ring);
}

#[test]
fn experience_levels_up_and_restores_health() {
    let mut player = Character::player();
    assert_eq!(100, player.xp_for_next());
    player.current_hp = 5;
    player.add_experience(99);
    assert_eq!(1, player.level);
    assert_eq!(5, player.current_hp);
    player.add_experience(1);
    assert_eq!(2, player.level);
    assert_eq!(0, player.xp);
    assert_eq!(200, player.xp_for_next());
    assert_eq!(player.max_hp(), player.current_hp);
    // two thresholds at once
    player.add_experience(200 + 300);
    assert_eq!(4, player.level);
    assert_eq!(0, player.xp);
}

#[test]
fn enemy_level_jitter_is_bounded() {
    assert_eq!(4, Randomizer::Fixed(0).enemy_level(5));
    assert_eq!(5, Randomizer::Fixed(1).enemy_level(5));
    assert_eq!(6, Randomizer::Fixed(2).enemy_level(5));
    assert_eq!(1, Randomizer::Fixed(0).enemy_level(1));
}

#[test]
fn change_class_only_at_home() {
    let mut game = Game::new_with(Randomizer::Fixed(10));
    let xp = game.player.xp_for_next();
    game.player.add_experience(xp);
    assert_eq!(Ok(()), game.change_class(&"mage".to_string()));
    assert_eq!("mage", game.player.class.name);
    assert_eq!(2, game.player.level);
    assert_eq!(Err(GameError::InvalidAction), game.change_class(&"dragon".to_string()));
    game.change_dir(
        rpg_core::location::Location::new(5, rpg_core::location::Distance::from(1), false),
        true,
    )
    .unwrap();
    assert_eq!(Err(GameError::InvalidAction), game.change_class(&"thief".to_string()));
}

#[test]
fn debug_command_grants_levels_and_gold() {
    let mut game = Game::new_with(Randomizer::Fixed(10));
    game.debug_command(5);
    assert_eq!(5, game.player.level);
    assert_eq!(25000, game.gold);
    assert_eq!(0, game.player.xp);
    assert!(game.location.is_home());
}
