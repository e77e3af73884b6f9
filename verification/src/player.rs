//! Players: their side of the map, where their units go, their strategy,
//! their spawn queue and the boosts they picked.

use crate::boosts::Boost;
use crate::map::Path;
use crate::random::random_index;
use crate::settings::PlayerColor;
use crate::units::{all_units, lemma_all_units_distinct, spec_all_units, spec_frames, spec_is_basic_unit, spec_unit_key, ActionKind, UnitName};
use std::collections::VecDeque;
use vstd::prelude::*;

verus! {

/// The most units that can wait in a spawn queue.
pub const MAX_QUEUE_LENGTH: usize = 10;

/// Most boosts a player holds, picked or active, at a time.
pub const MAX_BOOSTS: usize = 4;

/// The side of the map a player's base is on.
#[derive(Clone, Copy, Debug, PartialEq, Eq, Structural)]
pub enum Side {
    Left,
    Right,
}

impl Side {
    /// The other side.
    pub fn opposite(&self) -> (res: Side)
        ensures
            res != *self,
    {
        match self {
            Side::Left => Side::Right,
            Side::Right => Side::Left,
        }
    }
}

/// Which lanes a player's new units take.
#[derive(Clone, Copy, Debug, PartialEq, Eq, Structural)]
pub enum PlayerDirection {
    Any,
    Top,
    TopMid,
    Mid,
    MidBot,
    Bot,
    TopBot,
}

impl Default for PlayerDirection {
    fn default() -> (res: PlayerDirection)
        ensures
            res == PlayerDirection::Any,
    {
        PlayerDirection::Any
    }
}

/// The direction after the "next direction" button: Any, Top, TopMid, Mid,
/// MidBot, Bot, TopBot, then Any again.
pub open spec fn spec_next_direction(d: PlayerDirection) -> PlayerDirection {
    match d {
        PlayerDirection::Any => PlayerDirection::Top,
        PlayerDirection::Top => PlayerDirection::TopMid,
        PlayerDirection::TopMid => PlayerDirection::Mid,
        PlayerDirection::Mid => PlayerDirection::MidBot,
        PlayerDirection::MidBot => PlayerDirection::Bot,
        PlayerDirection::Bot => PlayerDirection::TopBot,
        PlayerDirection::TopBot => PlayerDirection::Any,
    }
}

/// The lanes that units take under a direction.
pub open spec fn spec_lanes(d: PlayerDirection) -> Seq<Path> {
    match d {
        PlayerDirection::Any => seq![Path::Top, Path::Mid, Path::Bot],
        PlayerDirection::Top => seq![Path::Top],
        PlayerDirection::TopMid => seq![Path::Top, Path::Mid],
        PlayerDirection::Mid => seq![Path::Mid],
        PlayerDirection::MidBot => seq![Path::Mid, Path::Bot],
        PlayerDirection::Bot => seq![Path::Bot],
        PlayerDirection::TopBot => seq![Path::Top, Path::Bot],
    }
}

/// The name of the arrow image that shows a direction.
pub open spec fn spec_direction_image(d: PlayerDirection) -> &'static str {
    match d {
        PlayerDirection::Any => "any arrow",
        PlayerDirection::Top | PlayerDirection::Bot => "top arrow",
        PlayerDirection::TopMid | PlayerDirection::MidBot => "top-mid arrow",
        PlayerDirection::Mid => "mid arrow",
        PlayerDirection::TopBot => "top bot arrow",
    }
}

impl PlayerDirection {
    /// The name of the arrow image that shows the direction.
    pub fn image(&self) -> (res: &'static str)
        ensures
            res == spec_direction_image(*self),
    {
        match self {
            PlayerDirection::Any => "any arrow",
            PlayerDirection::Top | PlayerDirection::Bot => "top arrow",
            PlayerDirection::TopMid | PlayerDirection::MidBot => "top-mid arrow",
            PlayerDirection::Mid => "mid arrow",
            PlayerDirection::TopBot => "top bot arrow",
        }
    }

    /// Whether the arrow image is shown upside down.
    pub fn flip_y(&self) -> (res: bool)
        ensures
            res == (*self == PlayerDirection::Bot || *self == PlayerDirection::MidBot),
    {
        match self {
            PlayerDirection::Bot | PlayerDirection::MidBot => true,
            _ => false,
        }
    }

    /// The direction after this one.
    pub fn next(&self) -> (res: Self)
        ensures
            res == spec_next_direction(*self),
    {
        match self {
            PlayerDirection::Any => PlayerDirection::Top,
            PlayerDirection::Top => PlayerDirection::TopMid,
            PlayerDirection::TopMid => PlayerDirection::Mid,
            PlayerDirection::Mid => PlayerDirection::MidBot,
            PlayerDirection::MidBot => PlayerDirection::Bot,
            PlayerDirection::Bot => PlayerDirection::TopBot,
            PlayerDirection::TopBot => PlayerDirection::Any,
        }
    }

    /// The direction before this one.
    pub fn previous(&self) -> (res: Self)
        ensures
            spec_next_direction(res) == *self,
    {
        match self {
            PlayerDirection::Any => PlayerDirection::TopBot,
            PlayerDirection::Top => PlayerDirection::Any,
            PlayerDirection::TopMid => PlayerDirection::Top,
            PlayerDirection::Mid => PlayerDirection::TopMid,
            PlayerDirection::MidBot => PlayerDirection::Mid,
            PlayerDirection::Bot => PlayerDirection::MidBot,
            PlayerDirection::TopBot => PlayerDirection::Bot,
        }
    }

    /// The lanes that new units take under this direction.
    pub fn lanes(&self) -> (res: Vec<Path>)
        ensures
            res@ == spec_lanes(*self),
    {
        match self {
            PlayerDirection::Any => vec![Path::Top, Path::Mid, Path::Bot],
            PlayerDirection::Top => vec![Path::Top],
            PlayerDirection::TopMid => vec![Path::Top, Path::Mid],
            PlayerDirection::Mid => vec![Path::Mid],
            PlayerDirection::MidBot => vec![Path::Mid, Path::Bot],
            PlayerDirection::Bot => vec![Path::Bot],
            PlayerDirection::TopBot => vec![Path::Top, Path::Bot],
        }
    }

    /// The lane a new unit takes: the one it was given, or else one of the
    /// direction's lanes, picked at random.
    pub fn pick_lane(&self, lane: Option<Path>) -> (res: Path)
        ensures
            lane matches Some(l) ==> res == l,
            lane is None ==> spec_lanes(*self).contains(res),
    {
        match lane {
            Some(l) => l,
            None => {
                let n = self.lanes().len();
                match random_index(n) {
                    Some(i) => self.lane_drawn(i),
                    None => Path::Mid,
                }
            },
        }
    }

    /// The lane a new unit takes for a drawn position among the direction's
    /// lanes.
    pub fn lane_drawn(&self, i: usize) -> (res: Path)
        requires
            i < spec_lanes(*self).len(),
        ensures
            res == spec_lanes(*self)[i as int],
    {
        let lanes = self.lanes();
        lanes[i]
    }
}

/// How a player's units behave.
#[derive(Clone, Copy, Debug, PartialEq, Eq, Structural)]
pub enum Strategy {
    Attack,
    Guard,
    March,
    Berserk,
}

impl Default for Strategy {
    fn default() -> (res: Strategy)
        ensures
            res == Strategy::Attack,
    {
        Strategy::Attack
    }
}

/// Every strategy, in declaration order.
pub fn all_strategies() -> (res: Vec<Strategy>)
    ensures
        res@ == seq![Strategy::Attack, Strategy::Guard, Strategy::March, Strategy::Berserk],
{
    vec![Strategy::Attack, Strategy::Guard, Strategy::March, Strategy::Berserk]
}

/// The text that explains a strategy.
pub open spec fn spec_strategy_description(s: Strategy) -> &'static str {
    match s {
        Strategy::Attack => "Advance until an enemy is in range, then attack. This is the default strategy.",
        Strategy::Guard => "Units that are being attacked go into guard stand (only those that can). \
            Guarding units have their armor and magic resist increased by 50%, but don't \
            attack.",
        Strategy::March => "Increase all unit's movement speed by 50% and ignore the enemies. March \
            towards the enemy base!",
        Strategy::Berserk => "Units gain 30% increased attack speed but reduces their armor and magic \
            resist by 50%.",
    }
}

/// The letter key that selects a strategy.
pub open spec fn spec_strategy_key(s: Strategy) -> char {
    match s {
        Strategy::Attack => 'T',
        Strategy::Guard => 'Y',
        Strategy::March => 'U',
        Strategy::Berserk => 'I',
    }
}

impl Strategy {
    /// The letter key that selects the strategy.
    pub fn key(&self) -> (res: char)
        ensures
            res == spec_strategy_key(*self),
    {
        match self {
            Strategy::Attack => 'T',
            Strategy::Guard => 'Y',
            Strategy::March => 'U',
            Strategy::Berserk => 'I',
        }
    }

    /// The text that explains the strategy.
    pub fn description(&self) -> (res: &'static str)
        ensures
            res == spec_strategy_description(*self),
    {
        match self {
            Strategy::Attack => "Advance until an enemy is in range, then attack. This is the default strategy.",
            Strategy::Guard => "Units that are being attacked go into guard stand (only those that can). \
                Guarding units have their armor and magic resist increased by 50%, but don't \
                attack.",
            Strategy::March => "Increase all unit's movement speed by 50% and ignore the enemies. March \
                towards the enemy base!",
            Strategy::Berserk => "Units gain 30% increased attack speed but reduces their armor and magic \
                resist by 50%.",
        }
    }
}

/// The armor and magic resist of a unit, in percent of its own: half
/// again as much while it guards, half as much under the berserk strategy
/// of its player (except on a building), both when both hold.
pub open spec fn spec_defense_percent(strategy: Strategy, guarding: bool, on_building: bool) -> u32 {
    let guard: u32 = if guarding { 150 } else { 100 };
    if strategy == Strategy::Berserk && !on_building { (guard / 2) as u32 } else { guard }
}

/// How fast a player's units attack, in percent: 30% faster under the
/// berserk strategy.
pub open spec fn spec_attack_speed_percent(strategy: Strategy) -> u32 {
    if strategy == Strategy::Berserk { 130 } else { 100 }
}

impl Strategy {
    /// The armor and magic resist of a unit of a player with this
    /// strategy, in percent of its own (see `spec_defense_percent`).
    pub fn defense_percent(&self, guarding: bool, on_building: bool) -> (res: u32)
        ensures
            res == spec_defense_percent(*self, guarding, on_building),
    {
        let guard: u32 = if guarding {
            150
        } else {
            100
        };
        if *self == Strategy::Berserk && !on_building {
            guard / 2
        } else {
            guard
        }
    }

    /// How fast the player's units attack, in percent.
    pub fn attack_speed_percent(&self) -> (res: u32)
        ensures
            res == spec_attack_speed_percent(*self),
    {
        if *self == Strategy::Berserk {
            130
        } else {
            100
        }
    }

    /// Whether a unit of this kind that is attacked goes into its guard
    /// stand: under the guard strategy, for the units that can guard.
    pub fn guards_when_hit(&self, unit: UnitName) -> (res: bool)
        ensures
            res == (*self == Strategy::Guard && spec_frames(unit, ActionKind::Guard) > 0),
    {
        *self == Strategy::Guard && unit.can_guard()
    }

    /// Whether a guarding unit stays in its guard stand: while its player
    /// keeps the guard strategy.
    pub fn keeps_guard(&self) -> (res: bool)
        ensures
            res == (*self == Strategy::Guard),
    {
        *self == Strategy::Guard
    }
}

/// A unit waiting in a spawn queue, with the timer `T` that counts down
/// its spawning time.
pub struct QueuedUnit<T> {
    pub unit: UnitName,
    pub timer: T,
}

impl<T> QueuedUnit<T> {
    /// A unit waiting to spawn, timed by `timer`.
    pub fn new(unit: UnitName, timer: T) -> (res: QueuedUnit<T>)
        ensures
            res.unit == unit,
            res.timer == timer,
    {
        QueuedUnit { unit, timer }
    }
}

/// A boost that a player picked, active or not yet, with the timer `T` that
/// counts down how long it stays active.
pub struct SelectedBoost<T> {
    pub name: Boost,
    pub active: bool,
    pub timer: T,
}

impl<T> SelectedBoost<T> {
    /// A picked boost, not yet active, timed by `timer`.
    pub fn new(name: Boost, timer: T) -> (res: SelectedBoost<T>)
        ensures
            res.name == name,
            !res.active,
            res.timer == timer,
    {
        SelectedBoost { name, active: false, timer }
    }

    /// The same boost, activated.
    pub fn active(self) -> (res: SelectedBoost<T>)
        ensures
            res.name == self.name,
            res.active,
            res.timer == self.timer,
    {
        let mut b = self;
        b.active = true;
        b
    }
}

/// A player; `T` is the timer type that counts down strategy changes,
/// spawning times and boost durations.
pub struct Player<T> {
    pub id: u64,
    pub color: PlayerColor,
    pub side: Side,
    pub direction: PlayerDirection,
    pub strategy: Strategy,
    pub strategy_timer: T,
    pub queue: VecDeque<QueuedUnit<T>>,
    pub queue_default: UnitName,
    pub boosts: Vec<SelectedBoost<T>>,
}

/// Whether a player with this id is a person: the host has id 0, the
/// computer a small id, and a client the id its connection was given.
pub open spec fn spec_is_human_id(id: u64) -> bool {
    id == 0 || (id > 10 && id < u64::MAX)
}

/// Whether the player has an active boost of this kind.
pub open spec fn spec_has_boost<T>(p: Player<T>, b: Boost) -> bool {
    exists|i: int| 0 <= i < p.boosts@.len() && (#[trigger] p.boosts@[i]).name == b && p.boosts@[i].active
}

/// Whether the player may put a unit of this kind in the queue: basic units
/// always, the others while the boost that allows them is active.
pub open spec fn spec_can_queue<T>(p: Player<T>, u: UnitName) -> bool {
    ||| spec_is_basic_unit(u)
    ||| (u == UnitName::Bear && spec_has_boost(p, Boost::QueueBears))
    ||| (u == UnitName::Goblin && spec_has_boost(p, Boost::QueueGoblins))
    ||| (u == UnitName::Hammerhead && spec_has_boost(p, Boost::QueueHammerheads))
    ||| (u == UnitName::Minotaur && spec_has_boost(p, Boost::QueueMinotaurs))
    ||| (u == UnitName::Shark && spec_has_boost(p, Boost::QueueSharks))
    ||| (u == UnitName::Skull && spec_has_boost(p, Boost::QueueSkulls))
    ||| (u == UnitName::Turtle && spec_has_boost(p, Boost::QueueTurtles))
}

/// What a request to queue a unit came to.
#[derive(Clone, Copy, Debug, PartialEq, Eq, Structural)]
pub enum QueueOutcome {
    /// The unit was put at the back of the queue.
    Queued,
    /// The queue was full; the request is dropped in silence.
    Dropped,
    /// The queue was full; the player, a person, hears an error sound.
    Refused,
}

/// The queue after a unit was put in it: the unit at the back, unless the
/// queue already holds `MAX_QUEUE_LENGTH` units.
pub open spec fn enqueued<T>(q: Seq<QueuedUnit<T>>, unit: UnitName, timer: T) -> Seq<QueuedUnit<T>> {
    if q.len() < MAX_QUEUE_LENGTH {
        q.push(QueuedUnit { unit, timer })
    } else {
        q
    }
}

/// What a request to queue a unit comes to, for a queue of `len` units of
/// the player with this id.
pub open spec fn enqueue_outcome(len: nat, id: u64) -> QueueOutcome {
    if len < MAX_QUEUE_LENGTH {
        QueueOutcome::Queued
    } else if spec_is_human_id(id) {
        QueueOutcome::Refused
    } else {
        QueueOutcome::Dropped
    }
}

impl<T> Player<T> {
    /// A new player with the default direction, strategy and queue default,
    /// an empty queue and no boosts. `strategy_timer` is the timer of
    /// strategy changes, which starts out finished so that the strategy can
    /// be changed at once.
    pub fn new(id: u64, color: PlayerColor, side: Side, strategy_timer: T) -> (res: Player<T>)
        ensures
            res.id == id,
            res.color == color,
            res.side == side,
            res.direction == PlayerDirection::Any,
            res.strategy == Strategy::Attack,
            res.strategy_timer == strategy_timer,
            res.queue@.len() == 0,
            res.queue_default == UnitName::Warrior,
            res.boosts@.len() == 0,
    {
        Player {
            id,
            color,
            side,
            direction: PlayerDirection::Any,
            strategy: Strategy::Attack,
            strategy_timer,
            queue: VecDeque::new(),
            queue_default: UnitName::Warrior,
            boosts: Vec::new(),
        }
    }

    /// Whether the player is a person rather than the computer.
    pub fn is_human(&self) -> (res: bool)
        ensures
            res == spec_is_human_id(self.id),
    {
        self.id == 0 || (self.id > 10 && self.id < u64::MAX)
    }

    /// Whether the player has an active boost of this kind.
    pub fn has_boost(&self, boost: Boost) -> (res: bool)
        ensures
            res == spec_has_boost(*self, boost),
    {
        let mut i: usize = 0;
        while i < self.boosts.len()
            invariant
                i <= self.boosts@.len(),
                forall|j: int|
                    0 <= j < i ==> !((#[trigger] self.boosts@[j]).name == boost && self.boosts@[j].active),
            decreases self.boosts@.len() - i,
        {
            if self.boosts[i].name == boost && self.boosts[i].active {
                return true;
            }
            i = i + 1;
        }
        false
    }

    /// Whether the player may put a unit of this kind in the queue.
    pub fn can_queue(&self, unit: UnitName) -> (res: bool)
        ensures
            res == spec_can_queue(*self, unit),
    {
        unit.is_basic_unit() || (unit == UnitName::Bear && self.has_boost(Boost::QueueBears)) || (
        unit == UnitName::Goblin && self.has_boost(Boost::QueueGoblins)) || (unit
            == UnitName::Hammerhead && self.has_boost(Boost::QueueHammerheads)) || (unit
            == UnitName::Minotaur && self.has_boost(Boost::QueueMinotaurs)) || (unit
            == UnitName::Shark && self.has_boost(Boost::QueueSharks)) || (unit == UnitName::Skull
            && self.has_boost(Boost::QueueSkulls)) || (unit == UnitName::Turtle && self.has_boost(
            Boost::QueueTurtles,
        ))
    }

    /// Puts a unit at the back of the queue, timed by `timer`, unless the
    /// queue already holds `MAX_QUEUE_LENGTH` units; a person whose queue is
    /// full is told so.
    pub fn enqueue(&mut self, unit: UnitName, timer: T) -> (res: QueueOutcome)
        ensures
            final(self).queue@ == enqueued(old(self).queue@, unit, timer),
            res == enqueue_outcome(old(self).queue@.len(), old(self).id),
            final(self).id == old(self).id,
            final(self).color == old(self).color,
            final(self).boosts == old(self).boosts,
            final(self).queue_default == old(self).queue_default,
    {
        if self.queue.len() < MAX_QUEUE_LENGTH {
            self.queue.push_back(QueuedUnit::new(unit, timer));
            QueueOutcome::Queued
        } else if self.is_human() {
            QueueOutcome::Refused
        } else {
            QueueOutcome::Dropped
        }
    }

    /// The unit that the special slot of the shop offers: the first kind,
    /// in declaration order, that is not basic and that the player may
    /// queue.
    pub fn special_unit(&self) -> (res: Option<UnitName>)
        ensures
            res matches Some(u) ==> !spec_is_basic_unit(u) && spec_can_queue(*self, u) && forall|i: int|
                0 <= i < spec_all_units().len() && spec_all_units()[i] == u ==> forall|j: int|
                    0 <= j < i ==> !(!spec_is_basic_unit(#[trigger] spec_all_units()[j]) && spec_can_queue(
                        *self,
                        spec_all_units()[j],
                    )),
            res is None ==> forall|i: int|
                0 <= i < spec_all_units().len() ==> !(!spec_is_basic_unit(#[trigger] spec_all_units()[i])
                    && spec_can_queue(*self, spec_all_units()[i])),
    {
        let units = all_units();
        let mut i: usize = 0;
        while i < units.len()
            invariant
                i <= units@.len(),
                units@ == spec_all_units(),
                forall|j: int|
                    0 <= j < i ==> !(!spec_is_basic_unit(#[trigger] units@[j]) && spec_can_queue(*self, units@[j])),
            decreases units@.len() - i,
        {
            let u = units[i];
            if !u.is_basic_unit() && self.can_queue(u) {
                proof {
                    lemma_all_units_distinct();
                }
                return Some(u);
            }
            i = i + 1;
        }
        None
    }

    /// Whether the queue box at this position is shown: the first always,
    /// any that holds a unit, and the second while two units spawn at once.
    pub fn queue_slot_visible(&self, pos: usize) -> (res: bool)
        ensures
            res == (pos == 0 || pos < self.queue@.len() || (pos == 1 && spec_has_boost(*self, Boost::DoubleQueue))),
    {
        pos == 0 || pos < self.queue.len() || (pos == 1 && self.has_boost(Boost::DoubleQueue))
    }

    /// The position of the boost shown in the `n`-th boost box: for this
    /// machine's player the `n`-th picked boost, for the enemy the `n`-th
    /// active one.
    pub fn shown_boost(&self, n: usize, is_me: bool) -> (res: Option<usize>)
        ensures
            is_me ==> res == (if n < self.boosts@.len() { Some(n) } else { None::<usize> }),
            !is_me ==> match res {
                Some(i) => i < self.boosts@.len() && self.boosts@[i as int].active && active_before(
                    self.boosts@,
                    i as int,
                ) == n,
                None => active_before(self.boosts@, self.boosts@.len() as int) <= n,
            },
    {
        if is_me {
            if n < self.boosts.len() {
                return Some(n);
            } else {
                return None;
            }
        }
        let mut seen: usize = 0;
        let mut i: usize = 0;
        while i < self.boosts.len()
            invariant
                i <= self.boosts@.len(),
                seen == active_before(self.boosts@, i as int),
                seen <= n,
                !is_me,
            decreases self.boosts@.len() - i,
        {
            if self.boosts[i].active {
                if seen == n {
                    return Some(i);
                }
                seen = seen + 1;
            }
            i = i + 1;
        }
        None
    }

    /// Whether this player's queue is advanced on this machine: every
    /// machine advances its own player's queue and the computer's, but not
    /// another person's.
    pub fn resolves_queue(&self, me: u64) -> (res: bool)
        ensures
            res == !(spec_is_human_id(self.id) && self.id != me),
    {
        !(self.is_human() && self.id != me)
    }

    /// How fast the queue counts spawning times down, in percent: the
    /// spawn time boost cuts every spawning time by a fifth, so that the
    /// time left runs down at 125%.
    pub fn spawn_speed_percent(&self) -> (res: u32)
        ensures
            res == (if spec_has_boost(*self, Boost::SpawnTime) { 125u32 } else { 100u32 }),
    {
        if self.has_boost(Boost::SpawnTime) {
            125
        } else {
            100
        }
    }

    /// How many units of the queue spawn at the same time: two while the
    /// double queue boost is active, else one.
    pub fn queue_slots(&self) -> (res: usize)
        ensures
            res == (if spec_has_boost(*self, Boost::DoubleQueue) { 2usize } else { 1usize }),
    {
        if self.has_boost(Boost::DoubleQueue) {
            2
        } else {
            1
        }
    }

    /// What happens to each spawning slot on a tick: a slot that holds a
    /// unit counts its timer down; an empty one asks for a new unit, the
    /// player's default unit for a person, a random one for the computer.
    pub fn slot_actions(&self) -> (res: Vec<SlotAction>)
        ensures
            res@ == spec_slot_actions(*self),
    {
        let slots = self.queue_slots();
        let mut res: Vec<SlotAction> = Vec::new();
        let mut i: usize = 0;
        while i < slots
            invariant
                slots == spec_queue_slots(*self),
                i <= slots,
                res@ == spec_slot_actions(*self).take(i as int),
            decreases slots - i,
        {
            let a = if i < self.queue.len() {
                SlotAction::Advance(i)
            } else if self.is_human() {
                SlotAction::QueueDefault(self.queue_default)
            } else {
                SlotAction::QueueRandom
            };
            res.push(a);
            i = i + 1;
            assert(res@ == spec_slot_actions(*self).take(i as int));
        }
        assert(spec_slot_actions(*self).take(slots as int) == spec_slot_actions(*self));
        res
    }

    /// Spawns the units whose timers finished: takes them out of the queue,
    /// last position first, and makes the earliest of them the new default
    /// unit. Returns them in the order they spawn, last position first.
    pub fn take_finished(&mut self, finished: &Vec<usize>) -> (res: Vec<UnitName>)
        requires
            strictly_increasing(finished@),
            forall|i: int| 0 <= i < finished@.len() ==> #[trigger] finished@[i] < old(self).queue@.len(),
        ensures
            res@ == spawned_units(old(self).queue@, finished@),
            final(self).queue@ == remove_positions(old(self).queue@, finished@),
            final(self).queue_default == (if finished@.len() == 0 {
                old(self).queue_default
            } else {
                old(self).queue@[finished@[0] as int].unit
            }),
            final(self).id == old(self).id,
            final(self).color == old(self).color,
            final(self).side == old(self).side,
            final(self).boosts == old(self).boosts,
    {
        let mut res: Vec<UnitName> = Vec::new();
        let mut k: usize = finished.len();
        let ghost q0 = self.queue@;
        while k > 0
            invariant
                k <= finished@.len(),
                strictly_increasing(finished@),
                forall|i: int| 0 <= i < finished@.len() ==> #[trigger] finished@[i] < q0.len(),
                self.queue@ == remove_positions_from(q0, finished@, k as int),
                res@ == spawned_units(q0, finished@).take(finished@.len() - k),
                self.queue_default == (if k == finished@.len() {
                    old(self).queue_default
                } else {
                    q0[finished@[k as int] as int].unit
                }),
                self.id == old(self).id,
                self.color == old(self).color,
                self.side == old(self).side,
                self.boosts == old(self).boosts,
            decreases k,
        {
            k = k - 1;
            let pos = finished[k];
            proof {
                lemma_positions_fit(q0, finished@, k as int);
                if k + 1 < finished@.len() {
                    lemma_remove_positions_prefix(q0, finished@, k as int + 1);
                }
                assert(self.queue@.len() == q0.len() - (finished@.len() - (k + 1)));
                assert(self.queue@[pos as int] == q0[pos as int]);
                assert(remove_positions_from(q0, finished@, k as int) == self.queue@.remove(pos as int));
                let sp = spawned_units(q0, finished@);
                let m = finished@.len() - k - 1;
                assert(sp.take(m + 1) == sp.take(m).push(sp[m]));
                assert(sp[m] == q0[finished@[k as int] as int].unit);
            }
            let q = self.queue.remove(pos);
            match q {
                Some(qu) => {
                    res.push(qu.unit);
                    self.queue_default = qu.unit;
                },
                None => {},
            }
            assert(res@ == spawned_units(q0, finished@).take(finished@.len() - k));
        }
        assert(spawned_units(q0, finished@).take(finished@.len() as int) == spawned_units(q0, finished@));
        res
    }

    /// Takes the unit at this position out of the queue, when there is
    /// one. Returns whether a unit was taken out.
    pub fn remove_queued(&mut self, pos: usize) -> (res: bool)
        ensures
            res == (pos < old(self).queue@.len()),
            final(self).queue@ == (if res { old(self).queue@.remove(pos as int) } else { old(self).queue@ }),
            final(self).id == old(self).id,
            final(self).color == old(self).color,
            final(self).boosts == old(self).boosts,
            final(self).queue_default == old(self).queue_default,
    {
        if pos < self.queue.len() {
            let _ = self.queue.remove(pos);
            true
        } else {
            false
        }
    }

    /// Adds a picked boost, timed by `timer` and active when `active`,
    /// unless the player already holds `MAX_BOOSTS` boosts. Returns whether
    /// it was added.
    pub fn select_boost(&mut self, boost: Boost, timer: T, active: bool) -> (res: bool)
        ensures
            res == (old(self).boosts@.len() < MAX_BOOSTS),
            final(self).boosts@ == (if res {
                old(self).boosts@.push(SelectedBoost { name: boost, active, timer })
            } else {
                old(self).boosts@
            }),
            old(self).boosts@.len() <= MAX_BOOSTS ==> final(self).boosts@.len() <= MAX_BOOSTS,
            final(self).id == old(self).id,
            final(self).color == old(self).color,
            final(self).side == old(self).side,
            final(self).strategy == old(self).strategy,
            final(self).queue == old(self).queue,
    {
        if self.boosts.len() < MAX_BOOSTS {
            let b = SelectedBoost::new(boost, timer);
            let b = if active {
                b.active()
            } else {
                b
            };
            self.boosts.push(b);
            true
        } else {
            false
        }
    }

    /// Changes the strategy to `strategy` when it is another one and the
    /// last change is long enough ago (`ready`). Returns whether it
    /// changed, after which the strategy timer starts over.
    pub fn change_strategy(&mut self, strategy: Strategy, ready: bool) -> (res: bool)
        ensures
            res == (ready && strategy != old(self).strategy),
            final(self).strategy == (if res { strategy } else { old(self).strategy }),
            final(self).id == old(self).id,
            final(self).color == old(self).color,
            final(self).boosts == old(self).boosts,
            final(self).queue == old(self).queue,
    {
        if ready && strategy != self.strategy {
            self.strategy = strategy;
            true
        } else {
            false
        }
    }

    /// A click on the `n`-th boost box of this machine's player: refused
    /// unless the game is running; a boost not yet active is activated; an
    /// active one is ended early; an empty box does nothing.
    pub fn click_boost(&mut self, n: usize, playing: bool) -> (res: BoostClick)
        ensures
            !playing ==> res == BoostClick::Refused && final(self).boosts == old(self).boosts,
            playing && n >= old(self).boosts@.len() ==> res == BoostClick::Nothing && final(self).boosts
                == old(self).boosts,
            playing && n < old(self).boosts@.len() && !old(self).boosts@[n as int].active ==> res
                == BoostClick::Activated(old(self).boosts@[n as int].name) && final(self).boosts@
                == old(self).boosts@.update(n as int, SelectedBoost { active: true, ..old(self).boosts@[n as int] }),
            playing && n < old(self).boosts@.len() && old(self).boosts@[n as int].active ==> res
                == BoostClick::Finish && final(self).boosts == old(self).boosts,
            final(self).id == old(self).id,
            final(self).color == old(self).color,
            final(self).queue == old(self).queue,
    {
        if !playing {
            return BoostClick::Refused;
        }
        if n >= self.boosts.len() {
            return BoostClick::Nothing;
        }
        if self.boosts[n].active {
            BoostClick::Finish
        } else {
            let name = self.boosts[n].name;
            self.boosts[n].active = true;
            BoostClick::Activated(name)
        }
    }

    /// Counts boosts down: keeps every boost that is not active yet and
    /// every active one whose time is not up (`expired[i]` tells whether
    /// the time of boost `i` is up).
    pub fn expire_boosts(&mut self, expired: &Vec<bool>)
        requires
            expired@.len() == old(self).boosts@.len(),
        ensures
            final(self).boosts@ == kept_boosts(old(self).boosts@, expired@),
            final(self).id == old(self).id,
            final(self).color == old(self).color,
            final(self).queue == old(self).queue,
    {
        let mut kept: Vec<SelectedBoost<T>> = Vec::new();
        let ghost b0 = self.boosts@;
        let mut old_boosts: Vec<SelectedBoost<T>> = Vec::new();
        std::mem::swap(&mut old_boosts, &mut self.boosts);
        let mut i: usize = 0;
        let n = old_boosts.len();
        let mut rest = old_boosts;
        while i < n
            invariant
                n == b0.len(),
                n == expired@.len(),
                i <= n,
                rest@ == b0.subrange(i as int, n as int),
                kept@ == kept_boosts(b0.take(i as int), expired@.take(i as int)),
                self.id == old(self).id,
                self.color == old(self).color,
                self.queue == old(self).queue,
            decreases n - i,
        {
            let b = rest.remove(0);
            proof {
                assert(b == b0[i as int]);
                let bt = b0.take(i + 1);
                let et = expired@.take(i + 1);
                assert(bt.drop_last() == b0.take(i as int));
                assert(et.take(i as int) == expired@.take(i as int));
                assert(bt.last() == b0[i as int]);
                assert(et[i as int] == expired@[i as int]);
            }
            if !b.active || !expired[i] {
                kept.push(b);
            }
            i = i + 1;
            assert(rest@ == b0.subrange(i as int, n as int));
        }
        assert(b0.take(n as int) == b0);
        assert(expired@.take(n as int) == expired@);
        self.boosts = kept;
    }
}

/// The two players of a game: the one on this machine and the enemy.
pub struct Players<T> {
    pub me: Player<T>,
    pub enemy: Player<T>,
}

impl<T> Players<T> {
    /// The player with this id: this machine's player when the id is its
    /// own, else the enemy.
    pub fn get_by_id_mut(&mut self, id: u64) -> (res: &mut Player<T>)
        ensures
            old(self).me.id == id ==> *res == old(self).me && final(self).me == *final(res)
                && final(self).enemy == old(self).enemy,
            old(self).me.id != id ==> *res == old(self).enemy && final(self).enemy == *final(res)
                && final(self).me == old(self).me,
    {
        if self.me.id == id {
            &mut self.me
        } else {
            &mut self.enemy
        }
    }

    /// The player with this color: this machine's player when the color is
    /// its own, else the enemy.
    pub fn get_by_color(&self, color: PlayerColor) -> (res: &Player<T>)
        ensures
            *res == (if self.me.color == color { self.me } else { self.enemy }),
    {
        if self.me.color == color {
            &self.me
        } else {
            &self.enemy
        }
    }

    /// The player on this side: this machine's player when it plays on that
    /// side, else the enemy.
    pub fn get_by_side(&self, side: Side) -> (res: &Player<T>)
        ensures
            *res == (if self.me.side == side { self.me } else { self.enemy }),
    {
        if self.me.side == side {
            &self.me
        } else {
            &self.enemy
        }
    }

    /// Both players: this machine's first, then the enemy.
    pub fn iter(&self) -> (res: Vec<&Player<T>>)
        ensures
            res@.len() == 2,
            *res@[0] == self.me,
            *res@[1] == self.enemy,
    {
        let mut v: Vec<&Player<T>> = Vec::new();
        v.push(&self.me);
        v.push(&self.enemy);
        v
    }

    /// Both players, to change: this machine's first, then the enemy.
    pub fn iter_mut(&mut self) -> (res: (&mut Player<T>, &mut Player<T>))
        ensures
            *res.0 == old(self).me,
            *res.1 == old(self).enemy,
            final(self).me == *final(res.0),
            final(self).enemy == *final(res.1),
    {
        (&mut self.me, &mut self.enemy)
    }

    /// Gives a person of a loaded game the id of the client now connected:
    /// when both players are people, the one whose id the enemy had (this
    /// machine's player if both had the same id) takes the id of the first
    /// client. Returns whether the enemy (`Some(true)`) or this machine's
    /// player (`Some(false)`) was given a new id, or `None`.
    pub fn rebind_humans(&mut self, clients: &Vec<u64>) -> (res: Option<bool>)
        requires
            spec_human_ids(old(self).me, old(self).enemy).len() > 1 ==> clients@.len() == 1,
        ensures
            spec_human_ids(old(self).me, old(self).enemy).len() <= 1 ==> res is None && *final(self)
                == *old(self),
            spec_human_ids(old(self).me, old(self).enemy).len() > 1 && old(self).me.id == old(self).enemy.id
                ==> res == Some(false) && final(self).me == (Player { id: clients@[0], ..old(self).me })
                && final(self).enemy == old(self).enemy,
            spec_human_ids(old(self).me, old(self).enemy).len() > 1 && old(self).me.id != old(self).enemy.id
                ==> res == Some(true) && final(self).enemy == (Player { id: clients@[0], ..old(self).enemy })
                && final(self).me == old(self).me,
    {
        let ids = self.human_ids();
        if ids.len() <= 1 {
            return None;
        }
        let new_id = clients[0];
        if self.me.id == ids[1] {
            self.me.id = new_id;
            Some(false)
        } else {
            self.enemy.id = new_id;
            Some(true)
        }
    }

    /// The ids of the players that are people, this machine's first.
    pub fn human_ids(&self) -> (res: Vec<u64>)
        ensures
            res@ == spec_human_ids(self.me, self.enemy),
    {
        let mut ids: Vec<u64> = Vec::new();
        if self.me.is_human() {
            ids.push(self.me.id);
        }
        if self.enemy.is_human() {
            ids.push(self.enemy.id);
        }
        ids
    }
}

/// How many of the first `i` boosts are active.
pub open spec fn active_before<T>(b: Seq<SelectedBoost<T>>, i: int) -> nat
    decreases i,
{
    if i <= 0 {
        0
    } else {
        active_before(b, i - 1) + if b[i - 1].active { 1nat } else { 0nat }
    }
}


/// The ids of the players that are people, in order.
pub open spec fn spec_human_ids<T>(me: Player<T>, enemy: Player<T>) -> Seq<u64> {
    let a: Seq<u64> = if spec_is_human_id(me.id) { seq![me.id] } else { Seq::empty() };
    if spec_is_human_id(enemy.id) { a.push(enemy.id) } else { a }
}

/// What a click on a boost box comes to.
#[derive(Clone, Copy, Debug, PartialEq, Eq, Structural)]
pub enum BoostClick {
    /// The game is not running: the player hears an error sound.
    Refused,
    /// The box is empty.
    Nothing,
    /// The boost was activated.
    Activated(Boost),
    /// The boost was active: its time is to be ended now.
    Finish,
}

/// What a spawning slot does on a tick.
#[derive(Clone, Copy, Debug, PartialEq, Eq, Structural)]
pub enum SlotAction {
    /// The unit at this position counts its timer down.
    Advance(usize),
    /// The slot is empty; the player's default unit is queued.
    QueueDefault(UnitName),
    /// The slot is empty; a random unit is queued.
    QueueRandom,
}

/// How many units of the queue spawn at the same time.
pub open spec fn spec_queue_slots<T>(p: Player<T>) -> usize {
    if spec_has_boost(p, Boost::DoubleQueue) { 2 } else { 1 }
}

/// What each spawning slot does on a tick.
pub open spec fn spec_slot_actions<T>(p: Player<T>) -> Seq<SlotAction> {
    Seq::new(
        spec_queue_slots(p) as nat,
        |i: int|
            if i < p.queue@.len() {
                SlotAction::Advance(i as usize)
            } else if spec_is_human_id(p.id) {
                SlotAction::QueueDefault(p.queue_default)
            } else {
                SlotAction::QueueRandom
            },
    )
}

/// The positions are listed in increasing order, each once.
pub open spec fn strictly_increasing(s: Seq<usize>) -> bool {
    forall|i: int, j: int| 0 <= i < j < s.len() ==> s[i] < s[j]
}

/// `q` with the positions `pos[k..]` taken out, the last one first.
pub open spec fn remove_positions_from<A>(q: Seq<A>, pos: Seq<usize>, k: int) -> Seq<A>
    decreases pos.len() - k,
{
    if k >= pos.len() || k < 0 {
        q
    } else {
        remove_positions_from(q, pos, k + 1).remove(pos[k] as int)
    }
}

/// `q` with the positions `pos` taken out.
pub open spec fn remove_positions<A>(q: Seq<A>, pos: Seq<usize>) -> Seq<A> {
    remove_positions_from(q, pos, 0)
}

/// The units at positions `pos` of the queue, the last position first.
pub open spec fn spawned_units<T>(q: Seq<QueuedUnit<T>>, pos: Seq<usize>) -> Seq<UnitName> {
    Seq::new(pos.len(), |i: int| q[pos[pos.len() - 1 - i] as int].unit)
}

/// The boosts that are kept: the inactive ones and the active ones whose
/// time is not up.
pub open spec fn kept_boosts<T>(b: Seq<SelectedBoost<T>>, expired: Seq<bool>) -> Seq<SelectedBoost<T>>
    decreases b.len(),
{
    if b.len() == 0 {
        b
    } else {
        let prev = kept_boosts(b.drop_last(), expired.take(b.len() - 1));
        if !b.last().active || !expired[b.len() - 1] {
            prev.push(b.last())
        } else {
            prev
        }
    }
}

proof fn lemma_remove_positions_prefix<A>(q: Seq<A>, pos: Seq<usize>, k: int)
    requires
        0 < k <= pos.len(),
        strictly_increasing(pos),
        forall|i: int| 0 <= i < pos.len() ==> #[trigger] pos[i] < q.len(),
    ensures
        remove_positions_from(q, pos, k).len() == q.len() - (pos.len() - k),
        forall|i: int|
            0 <= i <= pos[k - 1] ==> #[trigger] remove_positions_from(q, pos, k)[i] == q[i],
    decreases pos.len() - k,
{
    if k < pos.len() {
        lemma_remove_positions_prefix(q, pos, k + 1);
        assert(pos[k - 1] < pos[k]);
        let r = remove_positions_from(q, pos, k + 1);
        assert(pos[k] as int <= q.len() - (pos.len() - (k + 1)) - 1) by {
            lemma_positions_fit(q, pos, k);
        }
    }
}

proof fn lemma_positions_fit<A>(q: Seq<A>, pos: Seq<usize>, k: int)
    requires
        0 <= k < pos.len(),
        strictly_increasing(pos),
        forall|i: int| 0 <= i < pos.len() ==> #[trigger] pos[i] < q.len(),
    ensures
        pos[k] + (pos.len() - k) <= q.len(),
    decreases pos.len() - k,
{
    if k + 1 < pos.len() {
        lemma_positions_fit(q, pos, k + 1);
        assert(pos[k] < pos[k + 1]);
    }
}

/// The direction before another one.
pub open spec fn spec_previous_direction(d: PlayerDirection) -> PlayerDirection {
    match d {
        PlayerDirection::Any => PlayerDirection::TopBot,
        PlayerDirection::Top => PlayerDirection::Any,
        PlayerDirection::TopMid => PlayerDirection::Top,
        PlayerDirection::Mid => PlayerDirection::TopMid,
        PlayerDirection::MidBot => PlayerDirection::Mid,
        PlayerDirection::Bot => PlayerDirection::MidBot,
        PlayerDirection::TopBot => PlayerDirection::Bot,
    }
}

/// Stepping through the directions: the previous direction undoes the next
/// one and the other way round, and seven steps forward come back to the
/// start, after passing every direction.
pub proof fn direction_cycle(d: PlayerDirection)
    ensures
        spec_previous_direction(spec_next_direction(d)) == d,
        spec_next_direction(spec_previous_direction(d)) == d,
        spec_next_direction(spec_next_direction(spec_next_direction(spec_next_direction(
            spec_next_direction(spec_next_direction(spec_next_direction(d))),
        )))) == d,
{
}

/// Every direction sends units down at least one lane, and none twice.
pub proof fn directions_use_lanes(d: PlayerDirection)
    ensures
        spec_lanes(d).len() >= 1,
        spec_lanes(d).no_duplicates(),
{
}

/// Putting a unit in the queue never makes it longer than
/// `MAX_QUEUE_LENGTH`: a queue within the bound stays within it, and a
/// request is only turned down when the queue is full.
pub proof fn queue_stays_bounded<T>(q: Seq<QueuedUnit<T>>, unit: UnitName, timer: T, id: u64)
    requires
        q.len() <= MAX_QUEUE_LENGTH,
    ensures
        enqueued(q, unit, timer).len() <= MAX_QUEUE_LENGTH,
        enqueue_outcome(q.len(), id) == QueueOutcome::Queued || enqueued(q, unit, timer).len()
            == MAX_QUEUE_LENGTH,
        enqueue_outcome(q.len(), id) == QueueOutcome::Queued <==> enqueued(q, unit, timer).len() == q.len() + 1,
{
}

/// Spawning the finished units takes exactly them out of the queue: the
/// queue shrinks by their number, and as many units spawn.
pub proof fn spawning_shrinks_queue<T>(q: Seq<QueuedUnit<T>>, finished: Seq<usize>)
    requires
        strictly_increasing(finished),
        forall|i: int| 0 <= i < finished.len() ==> #[trigger] finished[i] < q.len(),
    ensures
        remove_positions(q, finished).len() == q.len() - finished.len(),
        spawned_units(q, finished).len() == finished.len(),
{
    if finished.len() > 0 {
        lemma_remove_positions_len(q, finished, 0);
    }
}

proof fn lemma_remove_positions_len<A>(q: Seq<A>, pos: Seq<usize>, k: int)
    requires
        0 <= k <= pos.len(),
        strictly_increasing(pos),
        forall|i: int| 0 <= i < pos.len() ==> #[trigger] pos[i] < q.len(),
    ensures
        remove_positions_from(q, pos, k).len() == q.len() - (pos.len() - k),
    decreases pos.len() - k,
{
    if k < pos.len() {
        lemma_remove_positions_len(q, pos, k + 1);
        lemma_positions_fit(q, pos, k);
        if k + 1 < pos.len() {
            lemma_remove_positions_prefix(q, pos, k + 1);
        }
    }
}

/// Counting boosts down never adds one and only drops boosts that were
/// active and whose time is up: every boost not yet active, and every one
/// whose time is not up, is kept, and every kept boost was there before.
pub proof fn expiry_keeps_unused_boosts<T>(b: Seq<SelectedBoost<T>>, expired: Seq<bool>)
    requires
        expired.len() == b.len(),
    ensures
        kept_boosts(b, expired).len() <= b.len(),
        forall|i: int|
            0 <= i < b.len() && (!b[i].active || !expired[i]) ==> kept_boosts(b, expired).contains(#[trigger] b[i]),
        forall|k: int| 0 <= k < kept_boosts(b, expired).len() ==> b.contains(#[trigger] kept_boosts(b, expired)[k]),
    decreases b.len(),
{
    if b.len() > 0 {
        let n = b.len() - 1;
        let pb = b.drop_last();
        let pe = expired.take(n);
        expiry_keeps_unused_boosts(pb, pe);
        let prev = kept_boosts(pb, pe);
        let kept = kept_boosts(b, expired);
        assert forall|i: int| 0 <= i < b.len() && (!b[i].active || !expired[i]) implies kept.contains(
            #[trigger] b[i],
        ) by {
            if i < n {
                assert(pb[i] == b[i]);
                assert(pe[i] == expired[i]);
                assert(prev.contains(pb[i]));
                let m = choose|m: int| 0 <= m < prev.len() && prev[m] == pb[i];
                if !b.last().active || !expired[n] {
                    assert(kept[m] == b[i]);
                } else {
                    assert(kept[m] == b[i]);
                }
            } else {
                assert(kept[kept.len() - 1] == b[i]);
            }
        }
        assert forall|k: int| 0 <= k < kept.len() implies b.contains(#[trigger] kept[k]) by {
            if k < prev.len() {
                assert(kept[k] == prev[k]);
                assert(pb.contains(prev[k]));
                let m = choose|m: int| 0 <= m < pb.len() && pb[m] == prev[k];
                assert(b[m] == pb[m]);
            } else {
                assert(kept[k] == b[n]);
            }
        }
    }
}

/// A boost that lets a player queue a kind of unit does so while it is
/// active.
pub proof fn queue_boosts_unlock_units<T>(p: Player<T>)
    ensures
        spec_has_boost(p, Boost::QueueBears) ==> spec_can_queue(p, UnitName::Bear),
        spec_has_boost(p, Boost::QueueGoblins) ==> spec_can_queue(p, UnitName::Goblin),
        spec_has_boost(p, Boost::QueueHammerheads) ==> spec_can_queue(p, UnitName::Hammerhead),
        spec_has_boost(p, Boost::QueueMinotaurs) ==> spec_can_queue(p, UnitName::Minotaur),
        spec_has_boost(p, Boost::QueueSharks) ==> spec_can_queue(p, UnitName::Shark),
        spec_has_boost(p, Boost::QueueSkulls) ==> spec_can_queue(p, UnitName::Skull),
        spec_has_boost(p, Boost::QueueTurtles) ==> spec_can_queue(p, UnitName::Turtle),
        forall|u: UnitName| spec_is_basic_unit(u) ==> #[trigger] spec_can_queue(p, u),
{
}


/// Every unit has a key that queues it: the basic units each their own,
/// the others the key of the shop's special slot; the strategies have
/// keys of their own, none shared with a unit.
pub proof fn key_bindings_distinct(u: UnitName, v: UnitName, s: Strategy, t: Strategy)
    ensures
        spec_is_basic_unit(u) && spec_is_basic_unit(v) && spec_unit_key(u) == spec_unit_key(v) ==> u == v,
        spec_is_basic_unit(u) ==> spec_unit_key(u) != 'B',
        !spec_is_basic_unit(u) ==> spec_unit_key(u) == 'B',
        spec_strategy_key(s) == spec_strategy_key(t) ==> s == t,
        spec_strategy_key(s) != spec_unit_key(u),
{
}

/// The lanes of a direction are the ones its name lists, each once: the
/// top lane for Any, Top, TopMid and TopBot; the middle one for Any,
/// TopMid, Mid and MidBot; the bottom one for Any, MidBot, Bot and TopBot.
/// So a new unit with no lane of its own takes one of those.
pub proof fn directions_name_their_lanes(d: PlayerDirection)
    ensures
        spec_lanes(d).contains(Path::Top) <==> (d == PlayerDirection::Any || d == PlayerDirection::Top || d
            == PlayerDirection::TopMid || d == PlayerDirection::TopBot),
        spec_lanes(d).contains(Path::Mid) <==> (d == PlayerDirection::Any || d == PlayerDirection::TopMid || d
            == PlayerDirection::Mid || d == PlayerDirection::MidBot),
        spec_lanes(d).contains(Path::Bot) <==> (d == PlayerDirection::Any || d == PlayerDirection::MidBot || d
            == PlayerDirection::Bot || d == PlayerDirection::TopBot),
        spec_lanes(d).no_duplicates(),
        spec_lanes(d).len() > 0,
{
    let l = spec_lanes(d);
    match d {
        PlayerDirection::Any => {
            assert(l[0] == Path::Top && l[1] == Path::Mid && l[2] == Path::Bot);
        },
        PlayerDirection::TopMid => {
            assert(l[0] == Path::Top && l[1] == Path::Mid);
        },
        PlayerDirection::MidBot => {
            assert(l[0] == Path::Mid && l[1] == Path::Bot);
        },
        PlayerDirection::TopBot => {
            assert(l[0] == Path::Top && l[1] == Path::Bot);
        },
        _ => {
            assert(l[0] == l[0]);
        },
    }
}

/// Every spawning slot is busy: one spawning slot, two under the double
/// queue boost; a slot that holds a unit counts it down, and an empty one
/// asks for a new unit, the player's default one for a person and a
/// random one for the computer.
pub proof fn slots_follow_the_queue<T>(p: Player<T>, i: int)
    requires
        0 <= i < spec_slot_actions(p).len(),
    ensures
        spec_slot_actions(p).len() == (if spec_has_boost(p, Boost::DoubleQueue) { 2int } else { 1int }),
        i < p.queue@.len() ==> spec_slot_actions(p)[i] == SlotAction::Advance(i as usize),
        i >= p.queue@.len() && spec_is_human_id(p.id) ==> spec_slot_actions(p)[i] == SlotAction::QueueDefault(
            p.queue_default,
        ),
        i >= p.queue@.len() && !spec_is_human_id(p.id) ==> spec_slot_actions(p)[i] == SlotAction::QueueRandom,
{
}

} // verus!
