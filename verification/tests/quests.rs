use rpg_core::game::Game;
use rpg_core::item::key::Key;
use rpg_core::quest::defeat_guardian::DefeatGuardian;
use rpg_core::quest::find_amulet::FindAmulet;
use rpg_core::quest::visit_tombstone::VisitTombstone;
use rpg_core::quest::Event;
use rpg_core::randomizer::Randomizer;

#[test]
fn quest_completion_is_monotone() {
    let mut quest = DefeatGuardian::new();
    assert!(!quest.handle(&Event::TombstoneVisited));
    assert!(!quest.handle(&Event::BattleWon { enemy_name: "rat".to_string() }));
    assert!(quest.handle(&Event::BattleWon { enemy_name: "guardian".to_string() }));
    // subsequent unrelated events never flip it back
    assert!(quest.handle(&Event::ItemAdded { item: Key::Potion }));
    assert!(quest.handle(&Event::BattleWon { enemy_name: "rat".to_string() }));
    assert!(quest.finished);
}

#[test]
fn find_amulet_completes_on_amulet_only() {
    let mut quest = FindAmulet::new();
    assert!(!quest.handle(&Event::ItemAdded { item: Key::Potion }));
    assert!(quest.handle(&Event::ItemAdded { item: Key::Amulet }));
    assert!(quest.handle(&Event::TombstoneVisited));
}

#[test]
fn visit_tombstone_completes_on_visit() {
    let mut quest = VisitTombstone::new();
    assert!(!quest.handle(&Event::ItemAdded { item: Key::Amulet }));
    assert!(quest.handle(&Event::TombstoneVisited));
}

#[test]
fn quest_descriptions() {
    assert_eq!("Defeat the Guardian.", DefeatGuardian::new().description());
    assert_eq!("Find the Amulet of Power.", FindAmulet::new().description());
    assert_eq!("Visit a fallen hero's tombstone.", VisitTombstone::new().description());
}

#[test]
fn guardian_quest_pays_once() {
    let mut game = Game::new_with(Randomizer::Fixed(10));
    assert!(game.quests.guardian_pending());
    game.dispatch_event(&Event::BattleWon { enemy_name: "guardian".to_string() });
    assert_eq!(500, game.gold);
    assert!(!game.quests.guardian_pending());
    // completion is idempotent: no re-delivery, no second payout
    game.dispatch_event(&Event::BattleWon { enemy_name: "guardian".to_string() });
    assert_eq!(500, game.gold);
}

#[test]
fn amulet_in_inventory_completes_quest() {
    let mut game = Game::new_with(Randomizer::Fixed(10));
    game.add_item(Key::Amulet);
    assert_eq!(1000, game.gold);
    assert_eq!(vec![Key::Amulet], game.inventory);
    // the amulet is passive: using it changes nothing
    assert!(game.use_item(Key::Amulet).is_ok());
    assert_eq!(vec![Key::Amulet], game.inventory);
}

#[test]
fn amulet_is_passive() {
    let amulet = rpg_core::item::amulet::Amulet::new();
    assert_eq!(Key::Amulet, amulet.key());
    amulet.apply();
    assert_eq!(
        "A mysterious amulet that hums with ancient power.",
        amulet.describe()
    );
}

#[test]
fn guardian_spawns_while_quest_pending() {
    let mut game = Game::new_with(Randomizer::Fixed(0));
    game.location = rpg_core::location::Location::new(
        3,
        rpg_core::location::Distance::from(11),
        false,
    );
    let started = game.battle().unwrap();
    assert!(started);
    let enemy = game.in_combat.as_ref().unwrap();
    assert_eq!("guardian", enemy.class.name);
    assert_eq!(5, enemy.level);
}
