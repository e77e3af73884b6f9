use tinywar::boosts::{
    all_boosts, available_boosts, boost_alert, boost_timer_action, free_tower_tile, instant_army,
    minotaur_rage_count, offered_boosts, pick_boost, tower_tiles, Boost, BoostAlert, BoostTimerAction,
    affected_positions, army_from, boost_drawn, free_tower_tiles, offered_from, swarm_from, swarm_spawns,
    tower_tile_drawn, BuildingEffect, UnitEffect,
};
use tinywar::map::{Path, TileMap};
use tinywar::buildings::BuildingName;
use tinywar::player::{Player, SelectedBoost, Side};
use tinywar::settings::{GameMode, PlayerColor};
use tinywar::states::{client_on_host_state, GameState, PeerReaction};
use tinywar::units::UnitName;

fn player() -> Player<u8> {
    Player::new(0, PlayerColor::Blue, Side::Left, 0)
}

#[test]
fn there_are_forty_nine_boosts() {
    let all = all_boosts();
    assert_eq!(all.len(), 49);
    assert_eq!(all[0], Boost::ArmorGain);
    assert_eq!(all[48], Boost::Warrior);
}

#[test]
fn durations() {
    assert_eq!(Boost::Frozen.duration(), 5);
    assert_eq!(Boost::SpawnTime.duration(), 50);
    assert_eq!(Boost::QueueSkulls.duration(), 40);
    assert_eq!(Boost::Castle.duration(), 0);
    assert_eq!(Boost::Lightning.duration(), 0);
}

#[test]
fn descriptions() {
    assert_eq!(Boost::Longbow.description(), "Increase the range of your archers by 50%.");
    assert_eq!(Boost::Snakes.description(), "Spawn 20 snakes randomly over the map.");
}

#[test]
fn castle_only_without_castle() {
    let p = player();
    assert!(Boost::Castle.condition(&vec![BuildingName::Barracks], &p));
    assert!(!Boost::Castle.condition(&vec![BuildingName::Castle], &p));
}

#[test]
fn at_most_two_towers() {
    let p = player();
    assert!(Boost::Tower.condition(&vec![BuildingName::Tower], &p));
    assert!(!Boost::Tower.condition(&vec![BuildingName::Tower, BuildingName::Tower], &p));
}

#[test]
fn queue_boosts_only_before_any_boost() {
    let mut p = player();
    assert!(Boost::QueueBears.condition(&vec![], &p));
    p.boosts.push(SelectedBoost::new(Boost::Run, 0));
    assert!(!Boost::QueueBears.condition(&vec![], &p));
    assert!(Boost::Siege.condition(&vec![], &p));
}

#[test]
fn available_boosts_leave_out_the_picked_ones() {
    let mut p = player();
    p.boosts.push(SelectedBoost::new(Boost::Run, 0));
    let avail = available_boosts(&p, &vec![BuildingName::Castle]);
    assert!(!avail.contains(&Boost::Run));
    assert!(!avail.contains(&Boost::Castle));
    assert!(!avail.contains(&Boost::QueueBears));
    assert!(avail.contains(&Boost::Siege));
}

#[test]
fn three_different_boosts_are_offered() {
    let p = player();
    let avail = available_boosts(&p, &vec![]);
    for _ in 0..20 {
        let offer = offered_boosts(&p, &vec![]);
        assert_eq!(offer.len(), 3);
        assert!(offer[0] != offer[1] && offer[1] != offer[2] && offer[0] != offer[2]);
        for b in &offer {
            assert!(avail.contains(b));
        }
        assert!(avail.contains(&pick_boost(&p, &vec![])));
    }
}

#[test]
fn timer_actions() {
    assert_eq!(boost_timer_action(GameMode::SinglePlayer, 4, 4, 4), BoostTimerAction::Nothing);
    assert_eq!(boost_timer_action(GameMode::SinglePlayer, 4, 2, 4), BoostTimerAction::EnemyPicks);
    assert_eq!(boost_timer_action(GameMode::Multiplayer, 4, 2, 4), BoostTimerAction::AwaitOtherPick);
    assert_eq!(boost_timer_action(GameMode::Multiplayer, 1, 4, 4), BoostTimerAction::SelectBoost);
}

#[test]
fn alerts() {
    assert_eq!(boost_alert(false, true), BoostAlert::HornAndForward);
    assert_eq!(boost_alert(true, true), BoostAlert::Horn);
    assert_eq!(boost_alert(true, false), BoostAlert::Warning);
}

#[test]
fn boost_effects() {
    assert_eq!(Boost::ConvertGoblins.lancer_conversion(), Some(UnitName::Goblin));
    assert_eq!(Boost::Run.lancer_conversion(), None);
    assert_eq!(Boost::Spiders.swarm(), Some((10, UnitName::Spider)));
    assert_eq!(Boost::SpawnTurtles.lane_spawn(), Some(UnitName::Turtle));
    assert_eq!(Boost::SpawnTrolls.lane_spawn(), None);
    assert_eq!(Boost::Clone.sample_size(), Some(8));
    assert!(Boost::GnomesBasic.gnome_target(UnitName::Archer));
    assert!(!Boost::GnomesMagic.gnome_target(UnitName::Archer));
    assert!(Boost::GnomesMagic.gnome_target(UnitName::Shark));
    assert!(Boost::QueueGnolls.is_queue_boost());
}

#[test]
fn minotaurs() {
    assert_eq!(minotaur_rage_count(0), 1);
    assert_eq!(minotaur_rage_count(5), 1);
    assert_eq!(minotaur_rage_count(9), 3);
}

#[test]
fn towers() {
    assert_eq!(tower_tiles(Side::Left), vec![(7, 0), (2, 3)]);
    assert_eq!(free_tower_tile(Side::Right, &vec![(23, 0)]), (28, 4));
    let t = free_tower_tile(Side::Left, &vec![]);
    assert!(t == (7, 0) || t == (2, 3));
}

#[test]
fn instant_army_has_six_kinds() {
    let army = instant_army();
    assert_eq!(army.len(), 6);
    for i in 0..6 {
        for j in i + 1..6 {
            assert!(army[i] != army[j]);
        }
    }
}

#[test]
fn full_players_do_not_pick() {
    assert_ne!(boost_timer_action(GameMode::SinglePlayer, 4, 0, 4), BoostTimerAction::SelectBoost);
    assert_ne!(boost_timer_action(GameMode::Multiplayer, 5, 2, 4), BoostTimerAction::SelectBoost);
    assert_eq!(boost_timer_action(GameMode::Multiplayer, 3, 4, 4), BoostTimerAction::SelectBoost);
    assert_eq!(
        client_on_host_state(GameState::BoostSelection, GameState::Playing, Some(4), 4),
        PeerReaction::GoTo(GameState::AfterBoostSelection)
    );
}

#[test]
fn boosts_take_sides() {
    assert_eq!(Boost::BearDefender.unit_effect(UnitName::Priest, true, false, false), UnitEffect::SpawnAt(UnitName::Bear));
    assert_eq!(Boost::BearDefender.unit_effect(UnitName::Priest, false, false, false), UnitEffect::Untouched);
    assert_eq!(Boost::Clone.unit_effect(UnitName::Archer, true, false, false), UnitEffect::SpawnAt(UnitName::Archer));
    assert_eq!(Boost::Clone.unit_effect(UnitName::Archer, true, false, true), UnitEffect::Untouched);
    assert_eq!(Boost::Conversion.unit_effect(UnitName::Warrior, false, false, true), UnitEffect::Convert);
    assert_eq!(Boost::Conversion.unit_effect(UnitName::Warrior, false, true, false), UnitEffect::Untouched);
    assert_eq!(
        Boost::ConvertHammerheads.unit_effect(UnitName::Lancer, true, false, false),
        UnitEffect::Become { unit: UnitName::Hammerhead, rescale: false }
    );
    assert_eq!(
        Boost::GnomesMagic.unit_effect(UnitName::Minotaur, false, false, false),
        UnitEffect::Become { unit: UnitName::Gnome, rescale: true }
    );
    assert_eq!(Boost::GnomesMagic.unit_effect(UnitName::Minotaur, true, false, false), UnitEffect::Untouched);
    assert_eq!(
        Boost::SharkTower.unit_effect(UnitName::Archer, true, true, false),
        UnitEffect::Become { unit: UnitName::Shark, rescale: false }
    );
    assert_eq!(Boost::Lightning.unit_effect(UnitName::Turtle, true, false, false), UnitEffect::HalveHealth);
    assert_eq!(Boost::Lightning.unit_effect(UnitName::Turtle, false, false, false), UnitEffect::HalveHealth);
    assert_eq!(Boost::InstantHealing.unit_effect(UnitName::Bear, false, false, false), UnitEffect::Untouched);
    assert_eq!(Boost::Repair.building_effect(true, false), BuildingEffect::Repair);
    assert_eq!(Boost::Repair.building_effect(false, true), BuildingEffect::Untouched);
    assert_eq!(Boost::Castle.building_effect(true, true), BuildingEffect::BecomeCastle);
    assert_eq!(Boost::Castle.building_effect(true, false), BuildingEffect::Untouched);
    assert_eq!(Boost::Respawn.building_effect(true, false), BuildingEffect::RefillArchers);
}

#[test]
fn swarms_spawn_as_many_as_their_cards_say() {
    assert_eq!(Boost::Skulls.swarm(), Some((15, UnitName::Skull)));
    assert_eq!(Boost::Snakes.swarm(), Some((20, UnitName::Snake)));
    assert!(Boost::Skulls.description().contains("15 skulls"));
    assert!(Boost::Snakes.description().contains("20 snakes"));
    assert!(Boost::Spiders.description().contains("10 spiders"));
    let map = TileMap::new();
    let tiles = map.swarm_tiles();
    let top = map.path(Path::Top);
    assert_eq!(tiles[0], (Path::Top, top[3]));
    assert_eq!(tiles[top.len() - 7], (Path::Top, top[top.len() - 4]));
    assert_eq!(tiles[top.len() - 6].0, Path::Mid);
    assert_eq!(swarm_from(&map, &vec![2, 0]), vec![tiles[2], tiles[0]]);
    let skulls = swarm_spawns(Boost::Skulls, &map);
    assert_eq!(skulls.len(), 15);
    assert!(skulls.iter().all(|t| tiles.contains(t)));
    assert!(swarm_spawns(Boost::Run, &map).is_empty());
}

#[test]
fn draws_pick_the_drawn_items() {
    assert_eq!(army_from(&vec![0, 4, 13]), vec![UnitName::Warrior, UnitName::Bear, UnitName::Turtle]);
    let p = player();
    let avail = available_boosts(&p, &vec![]);
    assert_eq!(offered_from(&p, &vec![], &vec![5, 1]), vec![avail[5], avail[1]]);
    assert_eq!(boost_drawn(&p, &vec![], 2), avail[2]);
    assert_eq!(free_tower_tiles(Side::Left, &vec![(7, 0)]), vec![(2, 3)]);
    assert_eq!(free_tower_tiles(Side::Left, &vec![]), vec![(7, 0), (2, 3)]);
    assert!(free_tower_tiles(Side::Left, &vec![(2, 3), (7, 0)]).is_empty());
    assert_eq!(tower_tile_drawn(Side::Right, &vec![], 1), (28, 4));
}

#[test]
fn affected_units() {
    assert_eq!(affected_positions(Boost::Lightning, 3), vec![0, 1, 2]);
    let conv = affected_positions(Boost::Conversion, 12);
    assert_eq!(conv.len(), 5);
    assert!(conv.iter().all(|i| *i < 12));
    let clone = affected_positions(Boost::Clone, 3);
    let mut sorted = clone.clone();
    sorted.sort();
    assert_eq!(sorted, vec![0, 1, 2]);
}
