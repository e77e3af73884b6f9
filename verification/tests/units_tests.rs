use tinywar::buildings::{all_buildings, BuildingName};
use tinywar::units::{all_action_kinds, all_units, Action, ActionKind, Projectile, ProjectileMode, UnitName};

#[test]
fn warrior_description() {
    assert_eq!(
        UnitName::Warrior.description(),
        "The warrior is a balanced front-line fighter with solid health and damage. With moderate \
         speed and close-range attacks, warriors excel at holding the line and engaging enemies in \
         direct combat."
    );
}

#[test]
fn priest_description_says_it_does_not_attack() {
    assert!(UnitName::Priest.description().ends_with("Priests do not attack."));
    assert!(!UnitName::Priest.can_attack());
}

#[test]
fn basic_units() {
    let basic: Vec<UnitName> = all_units().into_iter().filter(|u| u.is_basic_unit()).collect();
    assert_eq!(basic, vec![UnitName::Warrior, UnitName::Lancer, UnitName::Archer, UnitName::Priest]);
}

#[test]
fn melee_units_act_at_one_tile() {
    for u in all_units() {
        assert_eq!(u.is_melee(), u.range() == 1);
    }
    assert!(!UnitName::Archer.is_melee());
    assert!(!UnitName::Shark.is_melee());
    assert!(UnitName::Bear.is_melee());
}

#[test]
fn guards() {
    let guards: Vec<UnitName> = all_units().into_iter().filter(|u| u.can_guard()).collect();
    assert_eq!(guards, vec![UnitName::Warrior, UnitName::Minotaur, UnitName::Skull, UnitName::Turtle]);
}

#[test]
fn spawn_durations() {
    assert_eq!(UnitName::Warrior.spawn_duration(), 2500);
    assert_eq!(UnitName::Minotaur.spawn_duration(), 8900);
    assert_eq!(UnitName::Snake.spawn_duration(), 500);
}

#[test]
fn frames_by_action() {
    assert_eq!(UnitName::Warrior.frames(&Action::<u64>::Idle), 8);
    assert_eq!(UnitName::Warrior.frames(&Action::Attack(3u64)), 8);
    assert_eq!(UnitName::Priest.frames(&Action::Heal(3u64)), 11);
    assert_eq!(UnitName::Priest.frames(&Action::Attack(3u64)), 0);
    assert_eq!(UnitName::Lancer.frames(&Action::<u64>::Guard), 0);
    assert_eq!(UnitName::Minotaur.frames_of(ActionKind::Idle), 16);
}

#[test]
fn stats_of_some_units() {
    assert_eq!(UnitName::Turtle.health(), 350);
    assert_eq!(UnitName::Turtle.armor(), 20);
    assert_eq!(UnitName::Priest.physical_damage(), -30);
    assert_eq!(UnitName::Minotaur.magic_damage(), 30);
    assert_eq!(UnitName::Goblin.armor_pen(), 12);
    assert_eq!(UnitName::Spider.magic_pen(), 3);
    assert_eq!(UnitName::Snake.speed(), 45);
    assert_eq!(UnitName::Lancer.size(), 320);
    assert_eq!(UnitName::Archer.size(), 192);
    assert_eq!(UnitName::Archer.key(), 'C');
    assert_eq!(UnitName::Bear.key(), 'B');
}

#[test]
fn projectiles() {
    assert_eq!(UnitName::Archer.projectile(), Some(Projectile::Arrow));
    assert_eq!(UnitName::Shark.projectile(), Some(Projectile::Harpoon));
    assert_eq!(UnitName::Warrior.projectile(), None);
    assert_eq!(Projectile::Arrow.mode(), ProjectileMode::Parabolic);
    assert_eq!(Projectile::Magic.mode(), ProjectileMode::Straight);
    assert!(Projectile::Bone.animation());
    assert!(!Projectile::Harpoon.animation());
}

#[test]
fn actions_from_kinds() {
    let kinds = all_action_kinds();
    assert_eq!(kinds.len(), 5);
    for k in kinds {
        assert_eq!(k.to_action(9u64).kind(), k);
    }
    assert_eq!(ActionKind::Attack.to_action(9u64), Action::Attack(9));
    assert_eq!(Action::<u64>::default(), Action::Idle);
}

#[test]
fn buildings() {
    assert_eq!(all_buildings().len(), 3);
    assert_eq!(BuildingName::Castle.health(), 2000);
    assert_eq!(BuildingName::Tower.size(), (128, 256));
    assert_eq!(BuildingName::Barracks.units(), vec![(-25, 20), (25, 20)]);
    assert_eq!(BuildingName::default(), BuildingName::Barracks);
}

#[test]
fn lancers_are_faster_and_quicker_than_warriors() {
    assert!(UnitName::Lancer.speed() > UnitName::Warrior.speed());
    assert!(UnitName::Lancer.spawn_duration() < UnitName::Warrior.spawn_duration());
}

#[test]
fn key_bindings_do_not_clash() {
    let units = tinywar::units::all_units();
    let basic: Vec<UnitName> = units.iter().copied().filter(|u| u.is_basic_unit()).collect();
    let keys: Vec<char> = basic.iter().map(|u| u.key()).collect();
    assert_eq!(keys, vec!['Z', 'X', 'C', 'V']);
    for u in units.iter().filter(|u| !u.is_basic_unit()) {
        assert_eq!(u.key(), 'B');
    }
    let strategy_keys: Vec<char> =
        tinywar::player::all_strategies().iter().map(|s| s.key()).collect();
    assert_eq!(strategy_keys, vec!['T', 'Y', 'U', 'I']);
    for k in strategy_keys {
        assert!(units.iter().all(|u| u.key() != k));
    }
}
