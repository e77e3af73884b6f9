use tinywar::boosts::Boost;
use tinywar::map::Path;
use tinywar::player::{
    BoostClick, Player, PlayerDirection, Players, QueueOutcome, QueuedUnit, SelectedBoost, Side, SlotAction,
    Strategy, MAX_BOOSTS, MAX_QUEUE_LENGTH,
};
use tinywar::settings::PlayerColor;
use tinywar::units::UnitName;

fn player(id: u64) -> Player<u32> {
    Player::new(id, PlayerColor::Blue, Side::Left, 0)
}

#[test]
fn new_player_defaults() {
    let p = player(0);
    assert_eq!(p.direction, PlayerDirection::Any);
    assert_eq!(p.strategy, Strategy::Attack);
    assert_eq!(p.queue_default, UnitName::Warrior);
    assert!(p.queue.is_empty());
    assert!(p.boosts.is_empty());
}

#[test]
fn humans_and_computer() {
    assert!(player(0).is_human());
    assert!(!player(1).is_human());
    assert!(!player(10).is_human());
    assert!(player(11).is_human());
    assert!(!player(u64::MAX).is_human());
}

#[test]
fn only_active_boosts_count() {
    let mut p = player(0);
    p.boosts.push(SelectedBoost::new(Boost::QueueBears, 1));
    assert!(!p.has_boost(Boost::QueueBears));
    assert!(!p.can_queue(UnitName::Bear));
    p.boosts[0] = SelectedBoost::new(Boost::QueueBears, 1).active();
    assert!(p.has_boost(Boost::QueueBears));
    assert!(p.can_queue(UnitName::Bear));
    assert!(!p.can_queue(UnitName::Turtle));
    assert!(p.can_queue(UnitName::Priest));
    assert_eq!(p.special_unit(), Some(UnitName::Bear));
}

#[test]
fn no_special_unit_without_boost() {
    assert_eq!(player(0).special_unit(), None);
}

#[test]
fn queue_is_bounded() {
    let mut p = player(0);
    for i in 0..MAX_QUEUE_LENGTH {
        assert_eq!(p.enqueue(UnitName::Archer, i as u32), QueueOutcome::Queued);
    }
    assert_eq!(p.enqueue(UnitName::Archer, 99), QueueOutcome::Refused);
    assert_eq!(p.queue.len(), MAX_QUEUE_LENGTH);
    let mut ai = player(1);
    for _ in 0..MAX_QUEUE_LENGTH {
        ai.enqueue(UnitName::Lancer, 0);
    }
    assert_eq!(ai.enqueue(UnitName::Lancer, 0), QueueOutcome::Dropped);
}

#[test]
fn slots_and_actions() {
    let mut p = player(0);
    assert_eq!(p.queue_slots(), 1);
    assert_eq!(p.slot_actions(), vec![SlotAction::QueueDefault(UnitName::Warrior)]);
    p.enqueue(UnitName::Archer, 0);
    assert_eq!(p.slot_actions(), vec![SlotAction::Advance(0)]);
    p.boosts.push(SelectedBoost::new(Boost::DoubleQueue, 0).active());
    assert_eq!(p.queue_slots(), 2);
    assert_eq!(p.slot_actions(), vec![SlotAction::Advance(0), SlotAction::QueueDefault(UnitName::Warrior)]);
    let ai = player(1);
    assert_eq!(ai.slot_actions(), vec![SlotAction::QueueRandom]);
}

#[test]
fn finished_units_spawn_last_first() {
    let mut p = player(0);
    p.enqueue(UnitName::Archer, 0);
    p.enqueue(UnitName::Priest, 1);
    p.enqueue(UnitName::Lancer, 2);
    let spawned = p.take_finished(&vec![0, 1]);
    assert_eq!(spawned, vec![UnitName::Priest, UnitName::Archer]);
    assert_eq!(p.queue.len(), 1);
    assert_eq!(p.queue[0].unit, UnitName::Lancer);
    assert_eq!(p.queue_default, UnitName::Archer);
}

#[test]
fn nothing_finished_changes_nothing() {
    let mut p = player(0);
    p.enqueue(UnitName::Archer, 0);
    assert_eq!(p.take_finished(&vec![]), vec![]);
    assert_eq!(p.queue.len(), 1);
    assert_eq!(p.queue_default, UnitName::Warrior);
}

#[test]
fn expired_active_boosts_are_dropped() {
    let mut p = player(0);
    p.boosts.push(SelectedBoost::new(Boost::Run, 0).active());
    p.boosts.push(SelectedBoost::new(Boost::Siege, 1));
    p.boosts.push(SelectedBoost::new(Boost::Lancer, 2).active());
    p.expire_boosts(&vec![true, true, false]);
    let names: Vec<Boost> = p.boosts.iter().map(|b| b.name).collect();
    assert_eq!(names, vec![Boost::Siege, Boost::Lancer]);
}

#[test]
fn queue_resolution_by_machine() {
    assert!(player(0).resolves_queue(0));
    assert!(player(1).resolves_queue(0));
    assert!(!player(12).resolves_queue(0));
}

#[test]
fn directions_cycle() {
    let mut d = PlayerDirection::Any;
    for _ in 0..7 {
        assert_eq!(d.next().previous(), d);
        d = d.next();
    }
    assert_eq!(d, PlayerDirection::Any);
    assert_eq!(PlayerDirection::TopMid.lanes(), vec![Path::Top, Path::Mid]);
    assert_eq!(PlayerDirection::Any.lanes(), vec![Path::Top, Path::Mid, Path::Bot]);
    assert!(PlayerDirection::MidBot.flip_y());
    assert_eq!(PlayerDirection::TopBot.image(), "top bot arrow");
}

#[test]
fn lanes_picked_within_the_direction() {
    for _ in 0..20 {
        let l = PlayerDirection::MidBot.pick_lane(None);
        assert!(l == Path::Mid || l == Path::Bot);
    }
    assert_eq!(PlayerDirection::Top.pick_lane(Some(Path::Bot)), Path::Bot);
}

#[test]
fn strategies() {
    assert_eq!(Strategy::Berserk.key(), 'I');
    assert!(Strategy::Attack.description().starts_with("Advance until an enemy is in range"));
    assert_eq!(Side::Left.opposite(), Side::Right);
    assert_eq!(Side::Right.opposite().opposite(), Side::Right);
}

#[test]
fn players_lookup() {
    let mut ps = Players { me: player(0), enemy: Player::new(5, PlayerColor::Red, Side::Right, 0) };
    assert_eq!(ps.get_by_color(PlayerColor::Red).id, 5);
    assert_eq!(ps.get_by_side(Side::Left).id, 0);
    ps.get_by_id_mut(5).strategy = Strategy::Guard;
    assert_eq!(ps.enemy.strategy, Strategy::Guard);
    assert_eq!(ps.iter().len(), 2);
    let (a, _b) = ps.iter_mut();
    a.direction = PlayerDirection::Bot;
    assert_eq!(ps.me.direction, PlayerDirection::Bot);
    assert_eq!(ps.human_ids(), vec![0]);
}

#[test]
fn loaded_game_rebinds_the_client() {
    let mut ps = Players { me: player(0), enemy: Player::new(1234, PlayerColor::Red, Side::Right, 0) };
    assert_eq!(ps.rebind_humans(&vec![777]), Some(true));
    assert_eq!(ps.enemy.id, 777);
    let mut solo = Players { me: player(0), enemy: Player::new(1, PlayerColor::Red, Side::Right, 0) };
    assert_eq!(solo.rebind_humans(&vec![]), None);
    assert_eq!(solo.enemy.id, 1);
}

#[test]
fn queue_boxes() {
    let mut p = player(0);
    assert!(p.queue_slot_visible(0));
    assert!(!p.queue_slot_visible(1));
    p.enqueue(UnitName::Archer, 0);
    p.enqueue(UnitName::Archer, 0);
    assert!(p.queue_slot_visible(1));
    assert!(!p.queue_slot_visible(2));
}

#[test]
fn shown_boosts() {
    let mut p = player(0);
    p.boosts.push(SelectedBoost::new(Boost::Run, 0));
    p.boosts.push(SelectedBoost::new(Boost::Siege, 0).active());
    assert_eq!(p.shown_boost(0, true), Some(0));
    assert_eq!(p.shown_boost(0, false), Some(1));
    assert_eq!(p.shown_boost(1, false), None);
    assert_eq!(p.shown_boost(2, true), None);
    let q: QueuedUnit<u32> = QueuedUnit::new(UnitName::Skull, 4);
    assert_eq!(q.timer, 4);
}

#[test]
fn boost_limit_is_kept() {
    let mut p = player(0);
    assert_eq!(MAX_BOOSTS, 4);
    for (i, b) in [Boost::Run, Boost::Siege, Boost::Lancer, Boost::Repair].into_iter().enumerate() {
        assert!(p.select_boost(b, i as u32, i == 0));
    }
    assert!(!p.select_boost(Boost::Castle, 9, true));
    assert_eq!(p.boosts.len(), 4);
    assert!(p.boosts[0].active);
    assert!(!p.boosts[1].active);
    assert_eq!(p.boosts[3].name, Boost::Repair);
}

#[test]
fn strategy_changes_when_ready() {
    let mut p = player(0);
    assert!(!p.change_strategy(Strategy::Guard, false));
    assert_eq!(p.strategy, Strategy::Attack);
    assert!(!p.change_strategy(Strategy::Attack, true));
    assert!(p.change_strategy(Strategy::Guard, true));
    assert_eq!(p.strategy, Strategy::Guard);
}

#[test]
fn boost_box_clicks() {
    let mut p = player(0);
    p.boosts.push(SelectedBoost::new(Boost::Run, 3));
    assert_eq!(p.click_boost(0, false), BoostClick::Refused);
    assert!(!p.boosts[0].active);
    assert_eq!(p.click_boost(0, true), BoostClick::Activated(Boost::Run));
    assert!(p.boosts[0].active);
    assert_eq!(p.click_boost(0, true), BoostClick::Finish);
    assert_eq!(p.click_boost(1, true), BoostClick::Nothing);
}

#[test]
fn lanes_drawn_from_the_direction() {
    assert_eq!(PlayerDirection::TopBot.lane_drawn(1), Path::Bot);
    assert_eq!(PlayerDirection::Any.lane_drawn(1), Path::Mid);
    assert_eq!(PlayerDirection::Mid.lane_drawn(0), Path::Mid);
}

#[test]
fn queued_units_can_be_taken_out() {
    let mut p = player(0);
    p.enqueue(UnitName::Warrior, 1);
    p.enqueue(UnitName::Archer, 2);
    p.enqueue(UnitName::Lancer, 3);
    assert!(p.remove_queued(1));
    let left: Vec<UnitName> = p.queue.iter().map(|q| q.unit).collect();
    assert_eq!(left, vec![UnitName::Warrior, UnitName::Lancer]);
    assert!(!p.remove_queued(2));
    assert_eq!(p.queue.len(), 2);
}

#[test]
fn spawn_time_boost_shortens_spawning() {
    let mut p = player(0);
    assert_eq!(p.spawn_speed_percent(), 100);
    p.select_boost(Boost::SpawnTime, 0, true);
    assert_eq!(p.spawn_speed_percent(), 125);
}
