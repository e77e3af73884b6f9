//! Boosts: the cards that players pick during a game to strengthen their
//! side for a while, or at once.

use crate::buildings::BuildingName;
use crate::map::{spec_swarm_tiles, Path, Tile, TileMap};
use crate::player::{Player, Side};
use crate::random::{random_index, random_indices, select};
use crate::settings::GameMode;
use crate::states::{spec_client_on_host_state, GameState, PeerReaction};
use crate::units::{all_units, lemma_all_units_distinct, spec_all_units, spec_is_basic_unit, UnitName};
use vstd::prelude::*;

verus! {

/// The boosts a player can pick.
#[derive(Clone, Copy, Debug, PartialEq, Eq, Hash, Structural)]
pub enum Boost {
    ArmorGain,
    Arrows,
    BearDefender,
    BlockRange,
    BuildingsBlock,
    BuildingsDefense,
    Castle,
    Clone,
    Conversion,
    ConvertGoblins,
    ConvertHammerheads,
    ConvertSharks,
    DoubleQueue,
    Frozen,
    GnomesBasic,
    GnomesMagic,
    InstantHealing,
    InstantArmy,
    Lancer,
    Lightning,
    Longbow,
    MagicPower,
    MagicSwap,
    Meditation,
    MinotaurRage,
    NoCollision,
    Penetration,
    QueueBears,
    QueueGnolls,
    QueueGoblins,
    QueueHammerheads,
    QueueMinotaurs,
    QueueShamans,
    QueueSharks,
    QueueSkulls,
    QueueTurtles,
    Repair,
    Respawn,
    Run,
    SharkTower,
    Siege,
    Skulls,
    Snakes,
    SpawnTime,
    SpawnTrolls,
    SpawnTurtles,
    Spiders,
    Tower,
    Warrior,
}

/// The boost at position `i` in declaration order.
pub open spec fn boost_at(i: int) -> Boost {
    if i == 0 {
        Boost::ArmorGain
    } else if i == 1 {
        Boost::Arrows
    } else if i == 2 {
        Boost::BearDefender
    } else if i == 3 {
        Boost::BlockRange
    } else if i == 4 {
        Boost::BuildingsBlock
    } else if i == 5 {
        Boost::BuildingsDefense
    } else if i == 6 {
        Boost::Castle
    } else if i == 7 {
        Boost::Clone
    } else if i == 8 {
        Boost::Conversion
    } else if i == 9 {
        Boost::ConvertGoblins
    } else if i == 10 {
        Boost::ConvertHammerheads
    } else if i == 11 {
        Boost::ConvertSharks
    } else if i == 12 {
        Boost::DoubleQueue
    } else if i == 13 {
        Boost::Frozen
    } else if i == 14 {
        Boost::GnomesBasic
    } else if i == 15 {
        Boost::GnomesMagic
    } else if i == 16 {
        Boost::InstantHealing
    } else if i == 17 {
        Boost::InstantArmy
    } else if i == 18 {
        Boost::Lancer
    } else if i == 19 {
        Boost::Lightning
    } else if i == 20 {
        Boost::Longbow
    } else if i == 21 {
        Boost::MagicPower
    } else if i == 22 {
        Boost::MagicSwap
    } else if i == 23 {
        Boost::Meditation
    } else if i == 24 {
        Boost::MinotaurRage
    } else if i == 25 {
        Boost::NoCollision
    } else if i == 26 {
        Boost::Penetration
    } else if i == 27 {
        Boost::QueueBears
    } else if i == 28 {
        Boost::QueueGnolls
    } else if i == 29 {
        Boost::QueueGoblins
    } else if i == 30 {
        Boost::QueueHammerheads
    } else if i == 31 {
        Boost::QueueMinotaurs
    } else if i == 32 {
        Boost::QueueShamans
    } else if i == 33 {
        Boost::QueueSharks
    } else if i == 34 {
        Boost::QueueSkulls
    } else if i == 35 {
        Boost::QueueTurtles
    } else if i == 36 {
        Boost::Repair
    } else if i == 37 {
        Boost::Respawn
    } else if i == 38 {
        Boost::Run
    } else if i == 39 {
        Boost::SharkTower
    } else if i == 40 {
        Boost::Siege
    } else if i == 41 {
        Boost::Skulls
    } else if i == 42 {
        Boost::Snakes
    } else if i == 43 {
        Boost::SpawnTime
    } else if i == 44 {
        Boost::SpawnTrolls
    } else if i == 45 {
        Boost::SpawnTurtles
    } else if i == 46 {
        Boost::Spiders
    } else if i == 47 {
        Boost::Tower
    } else {
        Boost::Warrior
    }
}

/// The position of a boost in declaration order.
pub open spec fn boost_index(b: Boost) -> int {
    match b {
        Boost::ArmorGain => 0,
        Boost::Arrows => 1,
        Boost::BearDefender => 2,
        Boost::BlockRange => 3,
        Boost::BuildingsBlock => 4,
        Boost::BuildingsDefense => 5,
        Boost::Castle => 6,
        Boost::Clone => 7,
        Boost::Conversion => 8,
        Boost::ConvertGoblins => 9,
        Boost::ConvertHammerheads => 10,
        Boost::ConvertSharks => 11,
        Boost::DoubleQueue => 12,
        Boost::Frozen => 13,
        Boost::GnomesBasic => 14,
        Boost::GnomesMagic => 15,
        Boost::InstantHealing => 16,
        Boost::InstantArmy => 17,
        Boost::Lancer => 18,
        Boost::Lightning => 19,
        Boost::Longbow => 20,
        Boost::MagicPower => 21,
        Boost::MagicSwap => 22,
        Boost::Meditation => 23,
        Boost::MinotaurRage => 24,
        Boost::NoCollision => 25,
        Boost::Penetration => 26,
        Boost::QueueBears => 27,
        Boost::QueueGnolls => 28,
        Boost::QueueGoblins => 29,
        Boost::QueueHammerheads => 30,
        Boost::QueueMinotaurs => 31,
        Boost::QueueShamans => 32,
        Boost::QueueSharks => 33,
        Boost::QueueSkulls => 34,
        Boost::QueueTurtles => 35,
        Boost::Repair => 36,
        Boost::Respawn => 37,
        Boost::Run => 38,
        Boost::SharkTower => 39,
        Boost::Siege => 40,
        Boost::Skulls => 41,
        Boost::Snakes => 42,
        Boost::SpawnTime => 43,
        Boost::SpawnTrolls => 44,
        Boost::SpawnTurtles => 45,
        Boost::Spiders => 46,
        Boost::Tower => 47,
        Boost::Warrior => 48,
    }
}

/// The number of boosts.
pub const BOOST_COUNT: usize = 49;

/// Every boost, in declaration order.
pub open spec fn spec_all_boosts() -> Seq<Boost> {
    Seq::new(BOOST_COUNT as nat, |i: int| boost_at(i))
}

fn boost_from_index(i: usize) -> (res: Boost)
    requires
        i < BOOST_COUNT,
    ensures
        res == boost_at(i as int),
{
    match i {
        0 => Boost::ArmorGain,
        1 => Boost::Arrows,
        2 => Boost::BearDefender,
        3 => Boost::BlockRange,
        4 => Boost::BuildingsBlock,
        5 => Boost::BuildingsDefense,
        6 => Boost::Castle,
        7 => Boost::Clone,
        8 => Boost::Conversion,
        9 => Boost::ConvertGoblins,
        10 => Boost::ConvertHammerheads,
        11 => Boost::ConvertSharks,
        12 => Boost::DoubleQueue,
        13 => Boost::Frozen,
        14 => Boost::GnomesBasic,
        15 => Boost::GnomesMagic,
        16 => Boost::InstantHealing,
        17 => Boost::InstantArmy,
        18 => Boost::Lancer,
        19 => Boost::Lightning,
        20 => Boost::Longbow,
        21 => Boost::MagicPower,
        22 => Boost::MagicSwap,
        23 => Boost::Meditation,
        24 => Boost::MinotaurRage,
        25 => Boost::NoCollision,
        26 => Boost::Penetration,
        27 => Boost::QueueBears,
        28 => Boost::QueueGnolls,
        29 => Boost::QueueGoblins,
        30 => Boost::QueueHammerheads,
        31 => Boost::QueueMinotaurs,
        32 => Boost::QueueShamans,
        33 => Boost::QueueSharks,
        34 => Boost::QueueSkulls,
        35 => Boost::QueueTurtles,
        36 => Boost::Repair,
        37 => Boost::Respawn,
        38 => Boost::Run,
        39 => Boost::SharkTower,
        40 => Boost::Siege,
        41 => Boost::Skulls,
        42 => Boost::Snakes,
        43 => Boost::SpawnTime,
        44 => Boost::SpawnTrolls,
        45 => Boost::SpawnTurtles,
        46 => Boost::Spiders,
        47 => Boost::Tower,
        _ => Boost::Warrior,
    }
}

/// Every boost, in declaration order.
pub fn all_boosts() -> (res: Vec<Boost>)
    ensures
        res@ == spec_all_boosts(),
{
    let mut res: Vec<Boost> = Vec::new();
    let mut i: usize = 0;
    while i < BOOST_COUNT
        invariant
            i <= BOOST_COUNT,
            res@ == spec_all_boosts().take(i as int),
        decreases BOOST_COUNT - i,
    {
        res.push(boost_from_index(i));
        i = i + 1;
        assert(res@ == spec_all_boosts().take(i as int));
    }
    assert(spec_all_boosts().take(BOOST_COUNT as int) == spec_all_boosts());
    res
}

/// Each boost appears once in the list of all boosts, at its position.
proof fn lemma_boost_positions()
    ensures
        forall|i: int| 0 <= i < BOOST_COUNT ==> boost_index(#[trigger] boost_at(i)) == i,
        spec_all_boosts().no_duplicates(),
{
    assert forall|i: int| 0 <= i < BOOST_COUNT implies boost_index(#[trigger] boost_at(i)) == i by {}
    let s = spec_all_boosts();
    assert forall|i: int, j: int| 0 <= i < s.len() && 0 <= j < s.len() && i != j implies s[i] != s[j] by {
        assert(boost_index(boost_at(i)) == i);
        assert(boost_index(boost_at(j)) == j);
    }
}

/// The text shown on the card of a boost.
pub open spec fn spec_boost_description(b: Boost) -> &'static str {
    match b {
        Boost::ArmorGain => "Decrease damage to all your units by 30%.",
        Boost::Arrows => "Your archers deal 30% more damage.",
        Boost::BearDefender => "Every priest summons a bear next to him.",
        Boost::BlockRange => "Block all damage on units from enemy ranged units.",
        Boost::BuildingsBlock => "Block all damage dealt to your buildings.",
        Boost::BuildingsDefense => "Increase the damage of all units on buildings by 100%.",
        Boost::Castle => "Upgrade your base to a castle.",
        Boost::Clone => "Clones 8 random non-attacking units of yours (in position).",
        Boost::Conversion => "Converts 5 random enemy units to your side.",
        Boost::ConvertGoblins => "Transforms all your lancers into goblins.",
        Boost::ConvertHammerheads => "Transforms all your lancers into hammerheads.",
        Boost::ConvertSharks => "Transforms all your ground archers into sharks.",
        Boost::DoubleQueue => "Two units are queued at the same time.",
        Boost::Frozen => "All enemy units who aren't attacking stop their movement.",
        Boost::GnomesBasic => "Convert all basic (ground) enemy units into gnomes.",
        Boost::GnomesMagic => "Convert all magic (ground) enemy units into gnomes.",
        Boost::InstantHealing => "Instantly heal all your units to their maximum health.",
        Boost::InstantArmy => "Immediately spawn 6 random units in the base.",
        Boost::Lancer => "Increase your lancer's damage by 60%.",
        Boost::Lightning => "Reduce all unit's health by half",
        Boost::Longbow => "Increase the range of your archers by 50%.",
        Boost::MagicPower => "Increase all your unit's magic damage by 100%.",
        Boost::MagicSwap => "All your unit's physical damage become magic damage.",
        Boost::Meditation => "Your priest's healing is 70% stronger.",
        Boost::MinotaurRage => "Spawn a minotaur for every 3 enemy magical units (min 1).",
        Boost::NoCollision => "Your units don't collide with each other.",
        Boost::Penetration => "Increase the armor penetration of all your units with 5 points.",
        Boost::QueueBears => "Allow to add bears to the queue.",
        Boost::QueueGnolls => "Allow to add gnolls to the queue.",
        Boost::QueueGoblins => "Allow to add goblins to the queue.",
        Boost::QueueHammerheads => "Allow to add hammerheads to the queue.",
        Boost::QueueMinotaurs => "Allow to add minotaurs to the queue.",
        Boost::QueueShamans => "Allow to add shamans to the queue.",
        Boost::QueueSharks => "Allow to add sharks to the queue.",
        Boost::QueueSkulls => "Allow to add skulls to the queue.",
        Boost::QueueTurtles => "Allow to add turtles to the queue.",
        Boost::Repair => "Instantly repair all your buildings to their maximum health.",
        Boost::Respawn => "Respawn all dead units on buildings.",
        Boost::Run => "Increase the speed of all your units by 100%.",
        Boost::SharkTower => "Convert all your units on buildings into sharks.",
        Boost::Siege => "Increase all damage to buildings by 50%.",
        Boost::Skulls => "Spawn 15 skulls randomly over the map.",
        Boost::Snakes => "Spawn 20 snakes randomly over the map.",
        Boost::SpawnTime => "Reduce all spawning times by 20%.",
        Boost::SpawnTrolls => "Spawn 3 trolls, each towards a path.",
        Boost::SpawnTurtles => "Spawn 3 turtles, each towards a path.",
        Boost::Spiders => "Spawn 10 spiders randomly over the map.",
        Boost::Tower => "Spawn a defense tower near the base.",
        Boost::Warrior => "Increase your warrior's damage by 50%.",
    }
}

/// The boosts that let a player queue a kind of unit that the shop does not
/// offer by default.
pub open spec fn spec_is_queue_boost(b: Boost) -> bool {
    b == Boost::QueueBears
        || b == Boost::QueueGnolls
        || b == Boost::QueueGoblins
        || b == Boost::QueueHammerheads
        || b == Boost::QueueMinotaurs
        || b == Boost::QueueShamans
        || b == Boost::QueueSharks
        || b == Boost::QueueSkulls
        || b == Boost::QueueTurtles
}

/// How many seconds a boost stays active once activated; 0 for a boost
/// that takes effect at once.
pub open spec fn spec_boost_duration(b: Boost) -> u64 {
    match b {
        Boost::ArmorGain => 20,
        Boost::Arrows => 40,
        Boost::BlockRange => 15,
        Boost::BuildingsBlock => 10,
        Boost::BuildingsDefense => 25,
        Boost::DoubleQueue => 20,
        Boost::Frozen => 5,
        Boost::Lancer => 40,
        Boost::Longbow => 40,
        Boost::MagicPower => 15,
        Boost::MagicSwap => 40,
        Boost::Meditation => 40,
        Boost::NoCollision => 20,
        Boost::Penetration => 30,
        Boost::Run => 15,
        Boost::Siege => 10,
        Boost::SpawnTime => 50,
        Boost::Warrior => 40,
        _ => if spec_is_queue_boost(b) { 40 } else { 0 },
    }
}

impl Boost {
    /// The text shown on the card of the boost.
    pub fn description(&self) -> (res: &'static str)
        ensures
            res == spec_boost_description(*self),
    {
        match self {
            Boost::ArmorGain => "Decrease damage to all your units by 30%.",
            Boost::Arrows => "Your archers deal 30% more damage.",
            Boost::BearDefender => "Every priest summons a bear next to him.",
            Boost::BlockRange => "Block all damage on units from enemy ranged units.",
            Boost::BuildingsBlock => "Block all damage dealt to your buildings.",
            Boost::BuildingsDefense => "Increase the damage of all units on buildings by 100%.",
            Boost::Castle => "Upgrade your base to a castle.",
            Boost::Clone => "Clones 8 random non-attacking units of yours (in position).",
            Boost::Conversion => "Converts 5 random enemy units to your side.",
            Boost::ConvertGoblins => "Transforms all your lancers into goblins.",
            Boost::ConvertHammerheads => "Transforms all your lancers into hammerheads.",
            Boost::ConvertSharks => "Transforms all your ground archers into sharks.",
            Boost::DoubleQueue => "Two units are queued at the same time.",
            Boost::Frozen => "All enemy units who aren't attacking stop their movement.",
            Boost::GnomesBasic => "Convert all basic (ground) enemy units into gnomes.",
            Boost::GnomesMagic => "Convert all magic (ground) enemy units into gnomes.",
            Boost::InstantHealing => "Instantly heal all your units to their maximum health.",
            Boost::InstantArmy => "Immediately spawn 6 random units in the base.",
            Boost::Lancer => "Increase your lancer's damage by 60%.",
            Boost::Lightning => "Reduce all unit's health by half",
            Boost::Longbow => "Increase the range of your archers by 50%.",
            Boost::MagicPower => "Increase all your unit's magic damage by 100%.",
            Boost::MagicSwap => "All your unit's physical damage become magic damage.",
            Boost::Meditation => "Your priest's healing is 70% stronger.",
            Boost::MinotaurRage => "Spawn a minotaur for every 3 enemy magical units (min 1).",
            Boost::NoCollision => "Your units don't collide with each other.",
            Boost::Penetration => "Increase the armor penetration of all your units with 5 points.",
            Boost::QueueBears => "Allow to add bears to the queue.",
            Boost::QueueGnolls => "Allow to add gnolls to the queue.",
            Boost::QueueGoblins => "Allow to add goblins to the queue.",
            Boost::QueueHammerheads => "Allow to add hammerheads to the queue.",
            Boost::QueueMinotaurs => "Allow to add minotaurs to the queue.",
            Boost::QueueShamans => "Allow to add shamans to the queue.",
            Boost::QueueSharks => "Allow to add sharks to the queue.",
            Boost::QueueSkulls => "Allow to add skulls to the queue.",
            Boost::QueueTurtles => "Allow to add turtles to the queue.",
            Boost::Repair => "Instantly repair all your buildings to their maximum health.",
            Boost::Respawn => "Respawn all dead units on buildings.",
            Boost::Run => "Increase the speed of all your units by 100%.",
            Boost::SharkTower => "Convert all your units on buildings into sharks.",
            Boost::Siege => "Increase all damage to buildings by 50%.",
            Boost::Skulls => "Spawn 15 skulls randomly over the map.",
            Boost::Snakes => "Spawn 20 snakes randomly over the map.",
            Boost::SpawnTime => "Reduce all spawning times by 20%.",
            Boost::SpawnTrolls => "Spawn 3 trolls, each towards a path.",
            Boost::SpawnTurtles => "Spawn 3 turtles, each towards a path.",
            Boost::Spiders => "Spawn 10 spiders randomly over the map.",
            Boost::Tower => "Spawn a defense tower near the base.",
            Boost::Warrior => "Increase your warrior's damage by 50%.",
        }
    }

    /// Whether the boost lets the player queue a unit that the shop does not
    /// offer by default.
    pub fn is_queue_boost(&self) -> (res: bool)
        ensures
            res == spec_is_queue_boost(*self),
    {
        match self {
            Boost::QueueBears | Boost::QueueGnolls | Boost::QueueGoblins | Boost::QueueHammerheads | Boost::QueueMinotaurs | Boost::QueueShamans | Boost::QueueSharks | Boost::QueueSkulls | Boost::QueueTurtles => true,
            _ => false,
        }
    }

    /// How many seconds the boost stays active once activated; 0 for a
    /// boost that takes effect at once.
    pub fn duration(&self) -> (res: u64)
        ensures
            res == spec_boost_duration(*self),
    {
        match self {
            Boost::ArmorGain => 20,
            Boost::Arrows => 40,
            Boost::BlockRange => 15,
            Boost::BuildingsBlock => 10,
            Boost::BuildingsDefense => 25,
            Boost::DoubleQueue => 20,
            Boost::Frozen => 5,
            Boost::Lancer => 40,
            Boost::Longbow => 40,
            Boost::MagicPower => 15,
            Boost::MagicSwap => 40,
            Boost::Meditation => 40,
            Boost::NoCollision => 20,
            Boost::Penetration => 30,
            Boost::Run => 15,
            Boost::Siege => 10,
            Boost::SpawnTime => 50,
            Boost::Warrior => 40,
            b => if b.is_queue_boost() { 40 } else { 0 },
        }
    }
}


/// How many buildings of a kind a list holds.
pub open spec fn count_buildings(s: Seq<BuildingName>, n: BuildingName) -> nat
    decreases s.len(),
{
    if s.len() == 0 {
        0
    } else {
        count_buildings(s.drop_last(), n) + if s.last() == n { 1nat } else { 0nat }
    }
}

/// Whether a boost may be offered to a player who owns `buildings` and has
/// picked `picked` boosts so far: a castle only to a player without one, a
/// tower only to a player with fewer than two, a queue boost only to a
/// player who has picked no boost yet, and any other boost always.
pub open spec fn spec_condition(b: Boost, buildings: Seq<BuildingName>, picked: nat) -> bool {
    if b == Boost::Castle {
        count_buildings(buildings, BuildingName::Castle) == 0
    } else if b == Boost::Tower {
        count_buildings(buildings, BuildingName::Tower) < 2
    } else if spec_is_queue_boost(b) {
        picked == 0
    } else {
        true
    }
}

/// Whether the player picked a boost of this kind, active or not.
pub open spec fn spec_picked<T>(p: Player<T>, b: Boost) -> bool {
    exists|i: int| 0 <= i < p.boosts@.len() && (#[trigger] p.boosts@[i]).name == b
}

/// The boosts among `s` that may be offered to the player and that the
/// player has not picked yet, in order.
pub open spec fn available_among<T>(s: Seq<Boost>, buildings: Seq<BuildingName>, p: Player<T>) -> Seq<Boost>
    decreases s.len(),
{
    if s.len() == 0 {
        s
    } else {
        let prev = available_among(s.drop_last(), buildings, p);
        let b = s.last();
        if spec_condition(b, buildings, p.boosts@.len()) && !spec_picked(p, b) {
            prev.push(b)
        } else {
            prev
        }
    }
}

/// The boosts that may be offered to the player, in order.
pub open spec fn spec_available_boosts<T>(p: Player<T>, buildings: Seq<BuildingName>) -> Seq<Boost> {
    available_among(spec_all_boosts(), buildings, p)
}

fn count_of(buildings: &Vec<BuildingName>, n: BuildingName) -> (res: usize)
    ensures
        res == count_buildings(buildings@, n),
{
    let mut c: usize = 0;
    let mut i: usize = 0;
    while i < buildings.len()
        invariant
            i <= buildings@.len(),
            c == count_buildings(buildings@.take(i as int), n),
            c <= i,
        decreases buildings@.len() - i,
    {
        assert(buildings@.take(i + 1).drop_last() == buildings@.take(i as int));
        if buildings[i] == n {
            c = c + 1;
        }
        i = i + 1;
    }
    assert(buildings@.take(buildings@.len() as int) == buildings@);
    c
}

/// Whether the player picked a boost of this kind, active or not.
pub fn picked<T>(player: &Player<T>, b: Boost) -> (res: bool)
    ensures
        res == spec_picked(*player, b),
{
    let mut i: usize = 0;
    while i < player.boosts.len()
        invariant
            i <= player.boosts@.len(),
            forall|j: int| 0 <= j < i ==> (#[trigger] player.boosts@[j]).name != b,
        decreases player.boosts@.len() - i,
    {
        if player.boosts[i].name == b {
            return true;
        }
        i = i + 1;
    }
    false
}

impl Boost {
    /// Whether the boost may be offered to a player who owns `buildings`.
    pub fn condition<T>(&self, buildings: &Vec<BuildingName>, player: &Player<T>) -> (res: bool)
        ensures
            res == spec_condition(*self, buildings@, player.boosts@.len()),
    {
        match self {
            Boost::Castle => count_of(buildings, BuildingName::Castle) == 0,
            Boost::Tower => count_of(buildings, BuildingName::Tower) < 2,
            b => if b.is_queue_boost() {
                player.boosts.len() == 0
            } else {
                true
            },
        }
    }
}

/// The boosts that may be offered to a player who owns `buildings` and has
/// not picked them yet, in declaration order.
pub fn available_boosts<T>(player: &Player<T>, buildings: &Vec<BuildingName>) -> (res: Vec<Boost>)
    ensures
        res@ == spec_available_boosts(*player, buildings@),
{
    let all = all_boosts();
    let mut res: Vec<Boost> = Vec::new();
    let mut i: usize = 0;
    while i < all.len()
        invariant
            i <= all@.len(),
            all@ == spec_all_boosts(),
            res@ == available_among(all@.take(i as int), buildings@, *player),
        decreases all@.len() - i,
    {
        let b = all[i];
        assert(all@.take(i + 1).drop_last() == all@.take(i as int));
        if b.condition(buildings, player) && !picked(player, b) {
            res.push(b);
        }
        i = i + 1;
    }
    assert(all@.take(all@.len() as int) == all@);
    res
}

/// The boosts offered to a player for the drawn positions among the
/// available ones (`spec_available_boosts`), in the order drawn.
pub fn offered_from<T>(player: &Player<T>, buildings: &Vec<BuildingName>, idx: &Vec<usize>) -> (res: Vec<Boost>)
    requires
        forall|i: int| 0 <= i < idx@.len() ==> #[trigger] idx@[i] < spec_available_boosts(*player, buildings@).len(),
    ensures
        res@ == idx@.map_values(|k: usize| spec_available_boosts(*player, buildings@)[k as int]),
{
    let avail = available_boosts(player, buildings);
    select(&avail, idx)
}

/// The boosts offered to a player: three of the available ones (all of
/// them when fewer are available), picked at random, none twice.
pub fn offered_boosts<T>(player: &Player<T>, buildings: &Vec<BuildingName>) -> (res: Vec<Boost>)
    ensures
        res@.len() == (if spec_available_boosts(*player, buildings@).len() < 3 {
            spec_available_boosts(*player, buildings@).len()
        } else {
            3
        }),
        forall|i: int| 0 <= i < res@.len() ==> spec_available_boosts(*player, buildings@).contains(#[trigger] res@[i]),
        forall|i: int, j: int| 0 <= i < j < res@.len() ==> res@[i] != res@[j],
{
    let avail = available_boosts(player, buildings);
    proof {
        lemma_available_distinct(spec_all_boosts(), buildings@, *player);
        lemma_boost_positions();
    }
    let idx = random_indices(avail.len(), 3);
    let res = offered_from(player, buildings, &idx);
    assert forall|i: int| 0 <= i < res@.len() implies avail@.contains(#[trigger] res@[i]) by {
        assert(res@[i] == avail@[idx@[i] as int]);
    }
    assert forall|i: int, j: int| 0 <= i < j < res@.len() implies res@[i] != res@[j] by {
        assert(idx@[i] != idx@[j]);
        assert(res@[i] == avail@[idx@[i] as int] && res@[j] == avail@[idx@[j] as int]);
    }
    res
}

/// The boost the computer picks for a drawn position among the available
/// ones.
pub fn boost_drawn<T>(player: &Player<T>, buildings: &Vec<BuildingName>, i: usize) -> (res: Boost)
    requires
        i < spec_available_boosts(*player, buildings@).len(),
    ensures
        res == spec_available_boosts(*player, buildings@)[i as int],
{
    let avail = available_boosts(player, buildings);
    avail[i]
}

/// The boost the computer picks: one of the available ones, at random.
/// There must be one.
pub fn pick_boost<T>(player: &Player<T>, buildings: &Vec<BuildingName>) -> (res: Boost)
    requires
        spec_available_boosts(*player, buildings@).len() > 0,
    ensures
        spec_available_boosts(*player, buildings@).contains(res),
{
    let n = available_boosts(player, buildings).len();
    match random_index(n) {
        Some(i) => {
            let b = boost_drawn(player, buildings, i);
            assert(spec_available_boosts(*player, buildings@)[i as int] == b);
            b
        },
        None => Boost::ArmorGain,
    }
}

proof fn lemma_available_distinct<T>(s: Seq<Boost>, buildings: Seq<BuildingName>, p: Player<T>)
    requires
        s.no_duplicates(),
    ensures
        available_among(s, buildings, p).no_duplicates(),
        forall|b: Boost| available_among(s, buildings, p).contains(b) ==> s.contains(b),
    decreases s.len(),
{
    if s.len() > 0 {
        let prev = s.drop_last();
        assert(prev.no_duplicates());
        lemma_available_distinct(prev, buildings, p);
        assert(!prev.contains(s.last()));
        let a = available_among(s, buildings, p);
        assert forall|b: Boost| a.contains(b) implies s.contains(b) by {
            let k = choose|k: int| 0 <= k < a.len() && a[k] == b;
            if k < available_among(prev, buildings, p).len() {
                assert(available_among(prev, buildings, p)[k] == b);
                assert(available_among(prev, buildings, p).contains(b));
                assert(prev.contains(b));
                let m = choose|m: int| 0 <= m < prev.len() && prev[m] == b;
                assert(s[m] == b);
            } else {
                assert(s[s.len() - 1] == b);
            }
        }
    }
}

proof fn lemma_every_boost_listed(b: Boost)
    ensures
        0 <= boost_index(b) < BOOST_COUNT,
        boost_at(boost_index(b)) == b,
        spec_all_boosts().contains(b),
{
    assert(spec_all_boosts()[boost_index(b)] == b);
}

proof fn lemma_available_among_contains<T>(s: Seq<Boost>, buildings: Seq<BuildingName>, p: Player<T>, b: Boost)
    ensures
        available_among(s, buildings, p).contains(b) <==> (s.contains(b) && spec_condition(
            b,
            buildings,
            p.boosts@.len(),
        ) && !spec_picked(p, b)),
    decreases s.len(),
{
    if s.len() > 0 {
        let prev = s.drop_last();
        lemma_available_among_contains(prev, buildings, p, b);
        let a = available_among(s, buildings, p);
        let pa = available_among(prev, buildings, p);
        assert(s == prev.push(s.last()));
        if s.contains(b) && b != s.last() {
            let k = choose|k: int| 0 <= k < s.len() && s[k] == b;
            assert(prev[k] == b);
        }
        if a.contains(b) {
            let k = choose|k: int| 0 <= k < a.len() && a[k] == b;
            if k < pa.len() {
                assert(pa[k] == b);
                let m = choose|m: int| 0 <= m < prev.len() && prev[m] == b;
                assert(s[m] == b);
            } else {
                assert(s[s.len() - 1] == b);
            }
        }
        if s.contains(b) && spec_condition(b, buildings, p.boosts@.len()) && !spec_picked(p, b) {
            if b == s.last() {
                assert(a[a.len() - 1] == b);
            } else {
                let k = choose|k: int| 0 <= k < pa.len() && pa[k] == b;
                assert(a[k] == b);
            }
        }
    }
}

proof fn lemma_count_zero(s: Seq<BuildingName>, n: BuildingName)
    ensures
        count_buildings(s, n) == 0 <==> !s.contains(n),
    decreases s.len(),
{
    if s.len() > 0 {
        let prev = s.drop_last();
        lemma_count_zero(prev, n);
        assert(s == prev.push(s.last()));
        if s.contains(n) && s.last() != n {
            let k = choose|k: int| 0 <= k < s.len() && s[k] == n;
            assert(prev[k] == n);
        }
        if prev.contains(n) {
            let k = choose|k: int| 0 <= k < prev.len() && prev[k] == n;
            assert(s[k] == n);
        }
        if s.last() == n {
            assert(s[s.len() - 1] == n);
        }
    }
}

/// A boost is offered exactly when the player has not picked it and its
/// card can apply: a castle only to a player without one, a tower only to
/// a player with fewer than two, a boost that unlocks a unit for the queue
/// only before any boost was picked; every other boost always.
pub proof fn offered_boosts_are_allowed<T>(p: Player<T>, buildings: Seq<BuildingName>, b: Boost)
    ensures
        spec_available_boosts(p, buildings).contains(b) <==> {
            &&& !(exists|i: int| 0 <= i < p.boosts@.len() && (#[trigger] p.boosts@[i]).name == b)
            &&& b == Boost::Castle ==> !buildings.contains(BuildingName::Castle)
            &&& b == Boost::Tower ==> count_buildings(buildings, BuildingName::Tower) < 2
            &&& spec_is_queue_boost(b) ==> p.boosts@.len() == 0
        },
        spec_is_queue_boost(b) <==> (b == Boost::QueueBears || b == Boost::QueueGnolls || b == Boost::QueueGoblins
            || b == Boost::QueueHammerheads || b == Boost::QueueMinotaurs || b == Boost::QueueShamans || b
            == Boost::QueueSharks || b == Boost::QueueSkulls || b == Boost::QueueTurtles),
{
    lemma_every_boost_listed(b);
    lemma_available_among_contains(spec_all_boosts(), buildings, p, b);
    lemma_count_zero(buildings, BuildingName::Castle);
}

/// What happens when the boost timer of the game runs out.
#[derive(Clone, Copy, Debug, PartialEq, Eq, Structural)]
pub enum BoostTimerAction {
    /// Both players hold the most boosts they can: nothing happens.
    Nothing,
    /// Only this machine's player is full in a game against the computer:
    /// the computer picks a boost at once.
    EnemyPicks,
    /// Only this machine's player is full in a game against another person:
    /// wait for the other player to pick.
    AwaitOtherPick,
    /// Show this machine's player the boosts to pick from.
    SelectBoost,
}

/// What happens when the boost timer runs out, given how many boosts each
/// player holds and how many a player can hold.
pub open spec fn spec_boost_timer_action(mode: GameMode, me: nat, enemy: nat, max: nat) -> BoostTimerAction {
    if me >= max && enemy >= max {
        BoostTimerAction::Nothing
    } else if me >= max {
        match mode {
            GameMode::SinglePlayer => BoostTimerAction::EnemyPicks,
            GameMode::Multiplayer => BoostTimerAction::AwaitOtherPick,
        }
    } else {
        BoostTimerAction::SelectBoost
    }
}

/// What happens when the boost timer runs out.
pub fn boost_timer_action(mode: GameMode, me_boosts: usize, enemy_boosts: usize, max_boosts: usize) -> (res:
    BoostTimerAction)
    ensures
        res == spec_boost_timer_action(mode, me_boosts as nat, enemy_boosts as nat, max_boosts as nat),
{
    let me_full = me_boosts >= max_boosts;
    let enemy_full = enemy_boosts >= max_boosts;
    if me_full && enemy_full {
        BoostTimerAction::Nothing
    } else if me_full {
        match mode {
            GameMode::SinglePlayer => BoostTimerAction::EnemyPicks,
            GameMode::Multiplayer => BoostTimerAction::AwaitOtherPick,
        }
    } else {
        BoostTimerAction::SelectBoost
    }
}

/// A player who holds the most boosts they can never gets to pick one:
/// when the boost timer runs out the cards are only shown to a player
/// below the limit, the computer only picks while below it, and a client
/// at the limit waits for the others instead of picking when the host
/// opens the selection.
pub proof fn full_players_do_not_pick(mode: GameMode, me: nat, enemy: nat, max: usize, current: GameState)
    ensures
        me >= max ==> spec_boost_timer_action(mode, me, enemy, max as nat) != BoostTimerAction::SelectBoost,
        me < max ==> spec_boost_timer_action(mode, me, enemy, max as nat) == BoostTimerAction::SelectBoost,
        spec_boost_timer_action(mode, me, enemy, max as nat) == BoostTimerAction::EnemyPicks ==> enemy < max,
        spec_client_on_host_state(GameState::BoostSelection, current, Some(max), max) == PeerReaction::GoTo(
            GameState::AfterBoostSelection,
        ),
{
}

/// How a player is told that a boost is activated.
#[derive(Clone, Copy, Debug, PartialEq, Eq, Structural)]
pub enum BoostAlert {
    /// On a client: sound the horn and pass the boost on to the host, which
    /// applies it.
    HornAndForward,
    /// On the host, for its own boost: sound the horn and apply it.
    Horn,
    /// On the host, for the enemy's boost: sound a warning, tell the
    /// clients to do so too, and apply it.
    Warning,
}

/// How the activation of a boost is announced, and where it is applied.
pub fn boost_alert(is_host: bool, is_mine: bool) -> (res: BoostAlert)
    ensures
        !is_host ==> res == BoostAlert::HornAndForward,
        is_host && is_mine ==> res == BoostAlert::Horn,
        is_host && !is_mine ==> res == BoostAlert::Warning,
{
    if !is_host {
        BoostAlert::HornAndForward
    } else if is_mine {
        BoostAlert::Horn
    } else {
        BoostAlert::Warning
    }
}

/// The unit that lancers turn into under a conversion boost.
pub open spec fn spec_lancer_conversion(b: Boost) -> Option<UnitName> {
    match b {
        Boost::ConvertGoblins => Some(UnitName::Goblin),
        Boost::ConvertHammerheads => Some(UnitName::Hammerhead),
        _ => None,
    }
}

/// How many units of which kind a swarm boost spreads over the lanes.
pub open spec fn spec_swarm(b: Boost) -> Option<(usize, UnitName)> {
    match b {
        Boost::Skulls => Some((15usize, UnitName::Skull)),
        Boost::Snakes => Some((20usize, UnitName::Snake)),
        Boost::Spiders => Some((10usize, UnitName::Spider)),
        _ => None,
    }
}

/// The unit that a boost spawns once on each lane.
pub open spec fn spec_lane_spawn(b: Boost) -> Option<UnitName> {
    match b {
        Boost::SpawnTurtles => Some(UnitName::Turtle),
        _ => None,
    }
}

/// How many of the player's units a sampling boost picks: the clones and
/// the converted enemies.
pub open spec fn spec_sample_size(b: Boost) -> Option<usize> {
    match b {
        Boost::Clone => Some(8usize),
        Boost::Conversion => Some(5usize),
        _ => None,
    }
}

/// Whether a gnome boost turns an enemy unit of this kind into a gnome:
/// basic units for one, the others for the other.
pub open spec fn spec_gnome_target(b: Boost, u: UnitName) -> bool {
    ||| (b == Boost::GnomesBasic && spec_is_basic_unit(u))
    ||| (b == Boost::GnomesMagic && !spec_is_basic_unit(u))
}

impl Boost {
    /// The unit that the player's lancers turn into, for a conversion boost.
    pub fn lancer_conversion(&self) -> (res: Option<UnitName>)
        ensures
            res == spec_lancer_conversion(*self),
    {
        match self {
            Boost::ConvertGoblins => Some(UnitName::Goblin),
            Boost::ConvertHammerheads => Some(UnitName::Hammerhead),
            _ => None,
        }
    }

    /// How many units of which kind the boost spreads over the lanes.
    pub fn swarm(&self) -> (res: Option<(usize, UnitName)>)
        ensures
            res == spec_swarm(*self),
    {
        match self {
            Boost::Skulls => Some((15, UnitName::Skull)),
            Boost::Snakes => Some((20, UnitName::Snake)),
            Boost::Spiders => Some((10, UnitName::Spider)),
            _ => None,
        }
    }

    /// The unit that the boost spawns once on each lane. The trolls that one
    /// boost announces have no unit, so it spawns nothing.
    pub fn lane_spawn(&self) -> (res: Option<UnitName>)
        ensures
            res == spec_lane_spawn(*self),
    {
        match self {
            Boost::SpawnTurtles => Some(UnitName::Turtle),
            _ => None,
        }
    }

    /// How many units the boost picks at random among those it applies to.
    pub fn sample_size(&self) -> (res: Option<usize>)
        ensures
            res == spec_sample_size(*self),
    {
        match self {
            Boost::Clone => Some(8),
            Boost::Conversion => Some(5),
            _ => None,
        }
    }

    /// Whether the boost turns an enemy unit of this kind into a gnome.
    pub fn gnome_target(&self, unit: UnitName) -> (res: bool)
        ensures
            res == spec_gnome_target(*self, unit),
    {
        match self {
            Boost::GnomesBasic => unit.is_basic_unit(),
            Boost::GnomesMagic => !unit.is_basic_unit(),
            _ => false,
        }
    }
}

/// What an activated boost does to a unit on the map.
#[derive(Clone, Copy, Debug, PartialEq, Eq, Structural)]
pub enum UnitEffect {
    /// Nothing.
    Untouched,
    /// The unit turns into a unit of this kind and starts over from idle;
    /// with `rescale`, its health keeps its share of the full health.
    Become { unit: UnitName, rescale: bool },
    /// The unit goes over to the side of the player whose boost it is and
    /// starts over from idle.
    Convert,
    /// A new unit of this kind appears where the unit stands, on its lane.
    SpawnAt(UnitName),
    /// The unit is healed to full health.
    FullHealth,
    /// The unit loses half of its health.
    HalveHealth,
}

/// What an activated boost does to a unit: `own` tells whether the unit
/// belongs to the player whose boost it is, `on_building` whether it stands
/// on a building, and `attacking` whether it is attacking. For the clone
/// and conversion boosts, only `sample_size` of the units this applies to
/// are picked.
pub open spec fn spec_unit_effect(b: Boost, unit: UnitName, own: bool, on_building: bool, attacking: bool) -> UnitEffect {
    match b {
        Boost::BearDefender => if own && unit == UnitName::Priest {
            UnitEffect::SpawnAt(UnitName::Bear)
        } else {
            UnitEffect::Untouched
        },
        Boost::Clone => if own && !on_building && !attacking {
            UnitEffect::SpawnAt(unit)
        } else {
            UnitEffect::Untouched
        },
        Boost::Conversion => if !own && !on_building {
            UnitEffect::Convert
        } else {
            UnitEffect::Untouched
        },
        Boost::ConvertGoblins | Boost::ConvertHammerheads => if own && unit == UnitName::Lancer {
            UnitEffect::Become { unit: spec_lancer_conversion(b).unwrap(), rescale: false }
        } else {
            UnitEffect::Untouched
        },
        Boost::ConvertSharks => if own && unit == UnitName::Archer && !on_building {
            UnitEffect::Become { unit: UnitName::Shark, rescale: false }
        } else {
            UnitEffect::Untouched
        },
        Boost::GnomesBasic | Boost::GnomesMagic => if !own && !on_building && spec_gnome_target(b, unit) {
            UnitEffect::Become { unit: UnitName::Gnome, rescale: true }
        } else {
            UnitEffect::Untouched
        },
        Boost::InstantHealing => if own {
            UnitEffect::FullHealth
        } else {
            UnitEffect::Untouched
        },
        Boost::Lightning => UnitEffect::HalveHealth,
        Boost::SharkTower => if own && on_building {
            UnitEffect::Become { unit: UnitName::Shark, rescale: false }
        } else {
            UnitEffect::Untouched
        },
        _ => UnitEffect::Untouched,
    }
}

impl Boost {
    /// What the boost does to a unit, once activated (see
    /// `spec_unit_effect`).
    pub fn unit_effect(&self, unit: UnitName, own: bool, on_building: bool, attacking: bool) -> (res: UnitEffect)
        ensures
            res == spec_unit_effect(*self, unit, own, on_building, attacking),
    {
        match self {
            Boost::BearDefender => if own && unit == UnitName::Priest {
                UnitEffect::SpawnAt(UnitName::Bear)
            } else {
                UnitEffect::Untouched
            },
            Boost::Clone => if own && !on_building && !attacking {
                UnitEffect::SpawnAt(unit)
            } else {
                UnitEffect::Untouched
            },
            Boost::Conversion => if !own && !on_building {
                UnitEffect::Convert
            } else {
                UnitEffect::Untouched
            },
            Boost::ConvertGoblins | Boost::ConvertHammerheads => if own && unit == UnitName::Lancer {
                match self.lancer_conversion() {
                    Some(u) => UnitEffect::Become { unit: u, rescale: false },
                    None => UnitEffect::Untouched,
                }
            } else {
                UnitEffect::Untouched
            },
            Boost::ConvertSharks => if own && unit == UnitName::Archer && !on_building {
                UnitEffect::Become { unit: UnitName::Shark, rescale: false }
            } else {
                UnitEffect::Untouched
            },
            Boost::GnomesBasic | Boost::GnomesMagic => if !own && !on_building && self.gnome_target(unit) {
                UnitEffect::Become { unit: UnitName::Gnome, rescale: true }
            } else {
                UnitEffect::Untouched
            },
            Boost::InstantHealing => if own {
                UnitEffect::FullHealth
            } else {
                UnitEffect::Untouched
            },
            Boost::Lightning => UnitEffect::HalveHealth,
            Boost::SharkTower => if own && on_building {
                UnitEffect::Become { unit: UnitName::Shark, rescale: false }
            } else {
                UnitEffect::Untouched
            },
            _ => UnitEffect::Untouched,
        }
    }
}

/// What an activated boost does to a building on the map.
#[derive(Clone, Copy, Debug, PartialEq, Eq, Structural)]
pub enum BuildingEffect {
    /// Nothing.
    Untouched,
    /// The building is repaired to full health.
    Repair,
    /// The base is replaced by a castle that keeps its share of health.
    BecomeCastle,
    /// Archers appear on the places of the building where none stands.
    RefillArchers,
}

/// What an activated boost does to a building: `own` tells whether it
/// belongs to the player whose boost it is, `is_base` whether it is that
/// player's base.
pub open spec fn spec_building_effect(b: Boost, own: bool, is_base: bool) -> BuildingEffect {
    if !own {
        BuildingEffect::Untouched
    } else {
        match b {
            Boost::Repair => BuildingEffect::Repair,
            Boost::Castle => if is_base { BuildingEffect::BecomeCastle } else { BuildingEffect::Untouched },
            Boost::Respawn => BuildingEffect::RefillArchers,
            _ => BuildingEffect::Untouched,
        }
    }
}

impl Boost {
    /// What the boost does to a building, once activated.
    pub fn building_effect(&self, own: bool, is_base: bool) -> (res: BuildingEffect)
        ensures
            res == spec_building_effect(*self, own, is_base),
    {
        if !own {
            return BuildingEffect::Untouched;
        }
        match self {
            Boost::Repair => BuildingEffect::Repair,
            Boost::Castle => if is_base {
                BuildingEffect::BecomeCastle
            } else {
                BuildingEffect::Untouched
            },
            Boost::Respawn => BuildingEffect::RefillArchers,
            _ => BuildingEffect::Untouched,
        }
    }
}

/// Boosts take sides: what helps (healing, repairs, new units, stronger
/// kinds) only reaches the player's own units and buildings, what harms
/// (conversion to the other side, turning into gnomes) only the enemy's;
/// only lightning strikes both sides alike.
pub proof fn boosts_take_sides(b: Boost, unit: UnitName, own: bool, on_building: bool, attacking: bool, is_base: bool)
    ensures
        spec_unit_effect(b, unit, own, on_building, attacking) == UnitEffect::Convert ==> !own,
        spec_unit_effect(b, unit, own, on_building, attacking) == (UnitEffect::Become {
            unit: UnitName::Gnome,
            rescale: true,
        }) ==> !own,
        spec_unit_effect(b, unit, own, on_building, attacking) == UnitEffect::FullHealth ==> own,
        spec_unit_effect(b, unit, own, on_building, attacking) matches UnitEffect::SpawnAt(_) ==> own,
        spec_unit_effect(b, unit, own, on_building, attacking) matches UnitEffect::Become { rescale: false, .. }
            ==> own,
        spec_unit_effect(b, unit, own, on_building, attacking) == UnitEffect::HalveHealth <==> b == Boost::Lightning,
        spec_building_effect(b, own, is_base) != BuildingEffect::Untouched ==> own,
        spec_unit_effect(b, unit, own, on_building, attacking) == UnitEffect::Convert ==> spec_sample_size(b)
            == Some(5usize),
        spec_unit_effect(b, unit, own, on_building, attacking) == UnitEffect::SpawnAt(unit) && unit
            != UnitName::Bear ==> spec_sample_size(b) == Some(8usize),
{
}

/// The positions, among `n` units that a boost applies to, of those it
/// reaches: all of them, or for the clone and conversion boosts
/// `sample_size` of them (all when there are fewer), picked at random,
/// none twice.
pub fn affected_positions(b: Boost, n: usize) -> (res: Vec<usize>)
    ensures
        spec_sample_size(b) is None ==> res@ == Seq::new(n as nat, |i: int| i as usize),
        spec_sample_size(b) matches Some(s) ==> res@.len() == (if n < s { n } else { s }),
        forall|i: int| 0 <= i < res@.len() ==> #[trigger] res@[i] < n,
        res@.no_duplicates(),
{
    match b.sample_size() {
        Some(s) => random_indices(n, s),
        None => {
            let mut res: Vec<usize> = Vec::new();
            let mut i: usize = 0;
            while i < n
                invariant
                    i <= n,
                    res@ == Seq::new(i as nat, |k: int| k as usize),
                decreases n - i,
            {
                res.push(i);
                i = i + 1;
                assert(res@ =~= Seq::new(i as nat, |k: int| k as usize));
            }
            res
        },
    }
}

/// Where a swarm boost puts its units for the drawn positions among the
/// swarm tiles of the map (`spec_swarm_tiles`), in the order drawn.
pub fn swarm_from(map: &TileMap, idx: &Vec<usize>) -> (res: Vec<(Path, Tile)>)
    requires
        map.wf(),
        forall|i: int| 0 <= i < idx@.len() ==> #[trigger] idx@[i] < spec_swarm_tiles().len(),
    ensures
        res@ == idx@.map_values(|k: usize| spec_swarm_tiles()[k as int]),
{
    let tiles = map.swarm_tiles();
    select(&tiles, idx)
}

/// `spawns` are the swarm tiles at the positions `idx`, pairwise distinct
/// positions of the swarm tile list, in the order drawn.
pub open spec fn swarm_drawn_at(spawns: Seq<(Path, Tile)>, idx: Seq<usize>) -> bool {
    &&& idx.no_duplicates()
    &&& idx.len() == spawns.len()
    &&& forall|i: int| 0 <= i < idx.len() ==> #[trigger] idx[i] < spec_swarm_tiles().len()
    &&& spawns == idx.map_values(|k: usize| spec_swarm_tiles()[k as int])
}

/// Where a swarm boost puts its units: as many swarm tiles of the map as
/// the boost spawns units (all of them when there are fewer), picked at
/// random at pairwise distinct positions of the swarm tile list. Nothing
/// for a boost that is no swarm.
pub fn swarm_spawns(b: Boost, map: &TileMap) -> (res: Vec<(Path, Tile)>)
    requires
        map.wf(),
    ensures
        spec_swarm(b) is None ==> res@.len() == 0,
        spec_swarm(b) matches Some((amount, _)) ==> res@.len() == (if spec_swarm_tiles().len() < amount {
            spec_swarm_tiles().len()
        } else {
            amount as nat
        }),
        forall|i: int| 0 <= i < res@.len() ==> spec_swarm_tiles().contains(#[trigger] res@[i]),
        exists|idx: Seq<usize>| #[trigger] swarm_drawn_at(res@, idx),
{
    match b.swarm() {
        Some((amount, _)) => {
            let n = map.swarm_tiles().len();
            let idx = random_indices(n, amount);
            let res = swarm_from(map, &idx);
            assert forall|i: int| 0 <= i < res@.len() implies spec_swarm_tiles().contains(#[trigger] res@[i]) by {
                assert(res@[i] == spec_swarm_tiles()[idx@[i] as int]);
            }
            assert(swarm_drawn_at(res@, idx@));
            res
        },
        None => {
            let res: Vec<(Path, Tile)> = Vec::new();
            let ghost drawn: Seq<usize> = Seq::empty();
            assert(res@ == drawn.map_values(|k: usize| spec_swarm_tiles()[k as int]));
            assert(swarm_drawn_at(res@, drawn));
            res
        },
    }
}

/// Each boost reaches the units and buildings its card names, all of them:
/// instant healing heals every unit of the player, attacking or not, on a
/// building or not; lightning halves every unit; every priest of the player
/// summons a bear; all the player's lancers become goblins or hammerheads;
/// all the player's ground archers become sharks, and with the shark tower
/// all the player's units on buildings; all ground enemy units of the named
/// kind become gnomes; the clone boost may copy any of the player's ground
/// units that is not attacking, the conversion boost any ground enemy
/// unit; repairs and respawns reach all the player's buildings, and the
/// castle the player's base. None of them does anything else.
pub proof fn boosts_reach_what_their_cards_name(u: UnitName, own: bool, on_building: bool, attacking: bool, is_base: bool)
    ensures
        spec_unit_effect(Boost::InstantHealing, u, own, on_building, attacking) == (if own {
            UnitEffect::FullHealth
        } else {
            UnitEffect::Untouched
        }),
        spec_unit_effect(Boost::Lightning, u, own, on_building, attacking) == UnitEffect::HalveHealth,
        spec_unit_effect(Boost::BearDefender, u, own, on_building, attacking) == (if own && u == UnitName::Priest {
            UnitEffect::SpawnAt(UnitName::Bear)
        } else {
            UnitEffect::Untouched
        }),
        spec_unit_effect(Boost::ConvertGoblins, u, own, on_building, attacking) == (if own && u == UnitName::Lancer {
            UnitEffect::Become { unit: UnitName::Goblin, rescale: false }
        } else {
            UnitEffect::Untouched
        }),
        spec_unit_effect(Boost::ConvertHammerheads, u, own, on_building, attacking) == (if own && u == UnitName::Lancer {
            UnitEffect::Become { unit: UnitName::Hammerhead, rescale: false }
        } else {
            UnitEffect::Untouched
        }),
        spec_unit_effect(Boost::ConvertSharks, u, own, on_building, attacking) == (if own && u == UnitName::Archer && !on_building {
            UnitEffect::Become { unit: UnitName::Shark, rescale: false }
        } else {
            UnitEffect::Untouched
        }),
        spec_unit_effect(Boost::SharkTower, u, own, on_building, attacking) == (if own && on_building {
            UnitEffect::Become { unit: UnitName::Shark, rescale: false }
        } else {
            UnitEffect::Untouched
        }),
        spec_unit_effect(Boost::GnomesBasic, u, own, on_building, attacking) == (if !own && !on_building && spec_is_basic_unit(u) {
            UnitEffect::Become { unit: UnitName::Gnome, rescale: true }
        } else {
            UnitEffect::Untouched
        }),
        spec_unit_effect(Boost::GnomesMagic, u, own, on_building, attacking) == (if !own && !on_building && !spec_is_basic_unit(u) {
            UnitEffect::Become { unit: UnitName::Gnome, rescale: true }
        } else {
            UnitEffect::Untouched
        }),
        spec_unit_effect(Boost::Clone, u, own, on_building, attacking) == (if own && !on_building && !attacking {
            UnitEffect::SpawnAt(u)
        } else {
            UnitEffect::Untouched
        }),
        spec_unit_effect(Boost::Conversion, u, own, on_building, attacking) == (if !own && !on_building {
            UnitEffect::Convert
        } else {
            UnitEffect::Untouched
        }),
        spec_building_effect(Boost::Repair, own, is_base) == (if own {
            BuildingEffect::Repair
        } else {
            BuildingEffect::Untouched
        }),
        spec_building_effect(Boost::Castle, own, is_base) == (if own && is_base {
            BuildingEffect::BecomeCastle
        } else {
            BuildingEffect::Untouched
        }),
        spec_building_effect(Boost::Respawn, own, is_base) == (if own {
            BuildingEffect::RefillArchers
        } else {
            BuildingEffect::Untouched
        }),
{
}

/// How many minotaurs the rage boost spawns: one for every three magic
/// units of the enemy, and at least one.
pub fn minotaur_rage_count(enemy_magic_units: usize) -> (res: usize)
    ensures
        res == (if enemy_magic_units / 3 > 1 { enemy_magic_units / 3 } else { 1 }),
{
    let n = enemy_magic_units / 3;
    if n > 1 {
        n
    } else {
        1
    }
}

/// The two tiles where a player's defense towers can stand.
pub open spec fn spec_tower_tiles(side: Side) -> Seq<Tile> {
    match side {
        Side::Left => seq![(7u32, 0u32), (2u32, 3u32)],
        Side::Right => seq![(23u32, 0u32), (28u32, 4u32)],
    }
}

/// The two tiles where a player's defense towers can stand.
pub fn tower_tiles(side: Side) -> (res: Vec<Tile>)
    ensures
        res@ == spec_tower_tiles(side),
{
    match side {
        Side::Left => vec![(7, 0), (2, 3)],
        Side::Right => vec![(23, 0), (28, 4)],
    }
}

/// The tower tiles of a side on which no tower stands yet, in order.
pub open spec fn spec_free_tower_tiles(side: Side, towers: Seq<Tile>) -> Seq<Tile> {
    let t = spec_tower_tiles(side);
    let first: Seq<Tile> = if towers.contains(t[0]) { Seq::empty() } else { seq![t[0]] };
    if towers.contains(t[1]) { first } else { first.push(t[1]) }
}

/// The tower tiles of a side on which no tower stands yet, in order.
pub fn free_tower_tiles(side: Side, towers: &Vec<Tile>) -> (res: Vec<Tile>)
    ensures
        res@ == spec_free_tower_tiles(side, towers@),
{
    let tiles = tower_tiles(side);
    let mut free: Vec<Tile> = Vec::new();
    if !contains_tile(towers, tiles[0]) {
        free.push(tiles[0]);
    }
    if !contains_tile(towers, tiles[1]) {
        free.push(tiles[1]);
    }
    free
}

/// Where a new tower goes for a drawn position among the free tower tiles.
pub fn tower_tile_drawn(side: Side, towers: &Vec<Tile>, i: usize) -> (res: Tile)
    requires
        i < spec_free_tower_tiles(side, towers@).len(),
    ensures
        res == spec_free_tower_tiles(side, towers@)[i as int],
{
    let free = free_tower_tiles(side, towers);
    free[i]
}

/// Where a new tower goes: one of the player's tower tiles that no tower
/// stands on yet, picked at random. One must be free.
pub fn free_tower_tile(side: Side, towers: &Vec<Tile>) -> (res: Tile)
    requires
        spec_free_tower_tiles(side, towers@).len() > 0,
    ensures
        spec_free_tower_tiles(side, towers@).contains(res),
        spec_tower_tiles(side).contains(res),
        !towers@.contains(res),
{
    let n = free_tower_tiles(side, towers).len();
    let ghost t = spec_tower_tiles(side);
    match random_index(n) {
        Some(j) => {
            let r = tower_tile_drawn(side, towers, j);
            assert(spec_free_tower_tiles(side, towers@)[j as int] == r);
            assert(r == t[0] || r == t[1]);
            r
        },
        None => (0, 0),
    }
}

fn contains_tile(v: &Vec<Tile>, t: Tile) -> (res: bool)
    ensures
        res == v@.contains(t),
{
    let mut i: usize = 0;
    while i < v.len()
        invariant
            i <= v@.len(),
            forall|k: int| 0 <= k < i ==> v@[k] != t,
        decreases v@.len() - i,
    {
        if v[i].0 == t.0 && v[i].1 == t.1 {
            assert(v@[i as int] == t);
            return true;
        }
        i = i + 1;
    }
    false
}

/// The unit kinds at the drawn positions of `all_units`, in the order
/// drawn.
pub fn army_from(idx: &Vec<usize>) -> (res: Vec<UnitName>)
    requires
        forall|i: int| 0 <= i < idx@.len() ==> #[trigger] idx@[i] < spec_all_units().len(),
    ensures
        res@ == idx@.map_values(|k: usize| spec_all_units()[k as int]),
{
    let units = all_units();
    select(&units, idx)
}

/// The units an instant army spawns: six different kinds, picked at
/// random.
pub fn instant_army() -> (res: Vec<UnitName>)
    ensures
        res@.len() == 6,
        forall|i: int, j: int| 0 <= i < j < res@.len() ==> res@[i] != res@[j],
{
    let n = all_units().len();
    let idx = random_indices(n, 6);
    proof {
        lemma_all_units_distinct();
    }
    let res = army_from(&idx);
    assert forall|i: int, j: int| 0 <= i < j < res@.len() implies res@[i] != res@[j] by {
        assert(idx@[i] != idx@[j]);
        assert(res@[i] == spec_all_units()[idx@[i] as int]);
        assert(res@[j] == spec_all_units()[idx@[j] as int]);
    }
    res
}

} // verus!
