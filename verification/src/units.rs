//! The units that fight on the lanes: what each kind is, how it looks while
//! acting, and its combat numbers.

use vstd::prelude::*;

verus! {

/// The kinds of units.
#[derive(Clone, Copy, Debug, PartialEq, Eq, Hash, Structural)]
pub enum UnitName {
    Warrior,
    Lancer,
    Archer,
    Priest,
    Bear,
    Gnome,
    Goblin,
    Hammerhead,
    Minotaur,
    Shark,
    Skull,
    Snake,
    Spider,
    Turtle,
}

impl Default for UnitName {
    fn default() -> (res: UnitName)
        ensures
            res == UnitName::Warrior,
    {
        UnitName::Warrior
    }
}

/// Every kind of unit, in declaration order.
pub open spec fn spec_all_units() -> Seq<UnitName> {
    seq![UnitName::Warrior, UnitName::Lancer, UnitName::Archer, UnitName::Priest, UnitName::Bear, UnitName::Gnome, UnitName::Goblin, UnitName::Hammerhead, UnitName::Minotaur, UnitName::Shark, UnitName::Skull, UnitName::Snake, UnitName::Spider, UnitName::Turtle
    ]
}

/// Every kind of unit, in declaration order.
pub fn all_units() -> (res: Vec<UnitName>)
    ensures
        res@ == spec_all_units(),
{
    vec![UnitName::Warrior, UnitName::Lancer, UnitName::Archer, UnitName::Priest, UnitName::Bear, UnitName::Gnome, UnitName::Goblin, UnitName::Hammerhead, UnitName::Minotaur, UnitName::Shark, UnitName::Skull, UnitName::Snake, UnitName::Spider, UnitName::Turtle]
}

/// The text that describes a kind of unit.
pub open spec fn spec_unit_description(u: UnitName) -> &'static str {
    match u {
        UnitName::Warrior => "The warrior is a balanced front-line fighter with solid health and damage. With moderate \
            speed and close-range attacks, warriors excel at holding the line and engaging enemies in \
            direct combat.",
        UnitName::Lancer => "Lancers are swift and deadly units with. They sacrifice some durability for superior speed \
            and reduced spawning times, making them excellent for quick strikes against enemy \
            formations.",
        UnitName::Archer => "Archers have low health and damage, but shoot fast arrows at enemies at a distance. Their \
            exceptional range allows them to harass foes from safety, though they're vulnerable in close \
            combat.",
        UnitName::Priest => "Priests heal damaged units over a range. A priest cannot heal himself. These fragile support \
            units are slow-moving and defenseless, but their powerful healing can turn the tide of \
            battle. Priests do not attack.",
        UnitName::Bear => "A massive forest bully that crushes enemies with its enormous, powerful claws. Bears are \
            often summoned by priests to defend them in close combat.",
        UnitName::Gnome => "A small and fragile magical creature that attacks with a wooden hammer.",
        UnitName::Goblin => "A bad-tempered goblin that uses its spear to pierce through any armor.",
        UnitName::Hammerhead => "A magical sea creature that strikes with a heavy oar, as surprising as it is lethal.",
        UnitName::Minotaur => "A giant magical brute with a giant hammer, delivering strikes with overwhelming force. \
            Minotaurs are strong both in offense and defense.",
        UnitName::Shark => "A long-range magical predator that launches harpoons with deadly precision.",
        UnitName::Skull => "Skulls are fragile units used primarily as fodder or to overwhelm enemies with in huge \
            numbers.",
        UnitName::Snake => "A venomous serpent that strikes to infect its victims with deadly toxins.",
        UnitName::Spider => "A giant arachnid that bites and poisons its victims with every strike.",
        UnitName::Turtle => "Turtles are slow and have low damage, but are incredibly resilient. Their high armor and \
            magic resist make them the perfect units to block a path.",
    }
}

/// Milliseconds it takes to spawn a unit of this kind.
pub open spec fn spec_spawn_duration(u: UnitName) -> u64 {
    match u {
        UnitName::Warrior => 2500,
        UnitName::Lancer => 1800,
        UnitName::Archer => 3300,
        UnitName::Priest => 3400,
        UnitName::Bear => 3400,
        UnitName::Gnome => 1000,
        UnitName::Goblin => 2000,
        UnitName::Hammerhead => 1900,
        UnitName::Minotaur => 8900,
        UnitName::Shark => 3500,
        UnitName::Skull => 800,
        UnitName::Snake => 500,
        UnitName::Spider => 2500,
        UnitName::Turtle => 7500,
    }
}

/// Walking speed, in world units per second.
pub open spec fn spec_speed(u: UnitName) -> u32 {
    match u {
        UnitName::Warrior => 30,
        UnitName::Lancer => 35,
        UnitName::Archer => 25,
        UnitName::Priest => 25,
        UnitName::Bear => 40,
        UnitName::Gnome => 40,
        UnitName::Goblin => 35,
        UnitName::Hammerhead => 35,
        UnitName::Minotaur => 25,
        UnitName::Shark => 25,
        UnitName::Skull => 40,
        UnitName::Snake => 45,
        UnitName::Spider => 30,
        UnitName::Turtle => 15,
    }
}

/// Health of a freshly spawned unit.
pub open spec fn spec_health(u: UnitName) -> u32 {
    match u {
        UnitName::Warrior => 130,
        UnitName::Lancer => 100,
        UnitName::Archer => 60,
        UnitName::Priest => 40,
        UnitName::Bear => 200,
        UnitName::Gnome => 60,
        UnitName::Goblin => 100,
        UnitName::Hammerhead => 100,
        UnitName::Minotaur => 200,
        UnitName::Shark => 60,
        UnitName::Skull => 60,
        UnitName::Snake => 45,
        UnitName::Spider => 100,
        UnitName::Turtle => 350,
    }
}

/// Physical damage dealt on hit; negative for healing.
pub open spec fn spec_physical_damage(u: UnitName) -> i32 {
    match u {
        UnitName::Warrior => 15,
        UnitName::Lancer => 15,
        UnitName::Archer => 10,
        UnitName::Priest => -30i32,
        UnitName::Bear => 20,
        UnitName::Gnome => 7,
        UnitName::Goblin => 15,
        UnitName::Skull => 8,
        UnitName::Turtle => 5,
        _ => 0,
    }
}

/// Magic damage dealt on hit.
pub open spec fn spec_magic_damage(u: UnitName) -> u32 {
    match u {
        UnitName::Hammerhead => 15,
        UnitName::Minotaur => 30,
        UnitName::Shark => 10,
        UnitName::Skull => 2,
        UnitName::Snake => 8,
        UnitName::Spider => 18,
        UnitName::Turtle => 5,
        _ => 0,
    }
}

/// Armor, which reduces physical damage taken.
pub open spec fn spec_armor(u: UnitName) -> u32 {
    match u {
        UnitName::Warrior => 5,
        UnitName::Lancer => 3,
        UnitName::Archer => 1,
        UnitName::Priest => 0,
        UnitName::Bear => 10,
        UnitName::Gnome => 1,
        UnitName::Goblin => 4,
        UnitName::Hammerhead => 3,
        UnitName::Minotaur => 12,
        UnitName::Shark => 0,
        UnitName::Skull => 0,
        UnitName::Snake => 0,
        UnitName::Spider => 5,
        UnitName::Turtle => 20,
    }
}

/// Magic resist, which reduces magic damage taken.
pub open spec fn spec_magic_resist(u: UnitName) -> u32 {
    match u {
        UnitName::Warrior => 3,
        UnitName::Lancer => 3,
        UnitName::Archer => 0,
        UnitName::Priest => 12,
        UnitName::Bear => 6,
        UnitName::Gnome => 1,
        UnitName::Goblin => 4,
        UnitName::Hammerhead => 7,
        UnitName::Minotaur => 12,
        UnitName::Shark => 2,
        UnitName::Skull => 0,
        UnitName::Snake => 0,
        UnitName::Spider => 2,
        UnitName::Turtle => 20,
    }
}

/// Armor penetration: how much of the target's armor is ignored.
pub open spec fn spec_armor_pen(u: UnitName) -> u32 {
    match u {
        UnitName::Warrior => 5,
        UnitName::Lancer => 8,
        UnitName::Archer => 2,
        UnitName::Bear => 9,
        UnitName::Gnome => 1,
        UnitName::Goblin => 12,
        UnitName::Hammerhead => 8,
        UnitName::Minotaur => 10,
        UnitName::Shark => 5,
        UnitName::Spider => 3,
        _ => 0,
    }
}

/// Magic penetration: how much of the target's magic resist is ignored.
pub open spec fn spec_magic_pen(u: UnitName) -> u32 {
    match u {
        UnitName::Hammerhead => 8,
        UnitName::Minotaur => 10,
        UnitName::Shark => 5,
        UnitName::Spider => 3,
        _ => 0,
    }
}

/// Reach of the unit's action, in tiles.
pub open spec fn spec_range(u: UnitName) -> u32 {
    match u {
        UnitName::Archer => 3,
        UnitName::Priest => 3,
        UnitName::Shark => 3,
        _ => 1,
    }
}

/// Side of the unit's sprite, in pixels.
pub open spec fn spec_size(u: UnitName) -> u32 {
    match u {
        UnitName::Lancer => 320,
        UnitName::Bear => 256,
        UnitName::Goblin => 256,
        UnitName::Minotaur => 320,
        UnitName::Turtle => 320,
        _ => 192,
    }
}

/// The letter key that queues the unit from the shop.
pub open spec fn spec_unit_key(u: UnitName) -> char {
    match u {
        UnitName::Warrior => 'Z',
        UnitName::Lancer => 'X',
        UnitName::Archer => 'C',
        UnitName::Priest => 'V',
        _ => 'B',
    }
}

/// The number of animation frames of a kind of unit for an action; 0 when
/// the unit cannot perform the action.
pub open spec fn spec_frames(u: UnitName, a: ActionKind) -> u32 {
    match u {
        UnitName::Warrior => match a {
            ActionKind::Idle => 8,
            ActionKind::Run => 6,
            ActionKind::Guard => 6,
            ActionKind::Attack => 8,
            _ => 0,
        },
        UnitName::Lancer => match a {
            ActionKind::Idle => 12,
            ActionKind::Run => 6,
            ActionKind::Attack => 9,
            _ => 0,
        },
        UnitName::Archer => match a {
            ActionKind::Idle => 6,
            ActionKind::Run => 4,
            ActionKind::Attack => 6,
            _ => 0,
        },
        UnitName::Priest => match a {
            ActionKind::Idle => 6,
            ActionKind::Run => 4,
            ActionKind::Heal => 11,
            _ => 0,
        },
        UnitName::Bear => match a {
            ActionKind::Idle => 8,
            ActionKind::Run => 5,
            ActionKind::Attack => 9,
            _ => 0,
        },
        UnitName::Gnome => match a {
            ActionKind::Idle => 8,
            ActionKind::Run => 6,
            ActionKind::Attack => 7,
            _ => 0,
        },
        UnitName::Goblin => match a {
            ActionKind::Idle => 7,
            ActionKind::Run => 6,
            ActionKind::Attack => 8,
            _ => 0,
        },
        UnitName::Hammerhead => match a {
            ActionKind::Idle => 8,
            ActionKind::Run => 6,
            ActionKind::Attack => 6,
            _ => 0,
        },
        UnitName::Minotaur => match a {
            ActionKind::Idle => 16,
            ActionKind::Run => 8,
            ActionKind::Guard => 11,
            ActionKind::Attack => 12,
            _ => 0,
        },
        UnitName::Shark => match a {
            ActionKind::Idle => 8,
            ActionKind::Run => 6,
            ActionKind::Attack => 4,
            _ => 0,
        },
        UnitName::Skull => match a {
            ActionKind::Idle => 8,
            ActionKind::Run => 6,
            ActionKind::Guard => 7,
            ActionKind::Attack => 7,
            _ => 0,
        },
        UnitName::Snake => match a {
            ActionKind::Idle => 8,
            ActionKind::Run => 8,
            ActionKind::Attack => 6,
            _ => 0,
        },
        UnitName::Spider => match a {
            ActionKind::Idle => 8,
            ActionKind::Run => 5,
            ActionKind::Attack => 8,
            _ => 0,
        },
        UnitName::Turtle => match a {
            ActionKind::Idle => 10,
            ActionKind::Run => 7,
            ActionKind::Guard => 6,
            ActionKind::Attack => 10,
            _ => 0,
        },
    }
}

/// What a unit is doing; `E` identifies the unit or building that an attack
/// or a heal is aimed at.
#[derive(Clone, Copy, Debug, PartialEq, Eq)]
pub enum Action<E> {
    Idle,
    Run,
    Guard,
    Attack(E),
    Heal(E),
}

impl<E> Default for Action<E> {
    fn default() -> (res: Action<E>)
        ensures
            res == Action::<E>::Idle,
    {
        Action::Idle
    }
}

/// The kind of an action, without its target.
#[derive(Clone, Copy, Debug, PartialEq, Eq, Hash, Structural)]
pub enum ActionKind {
    Idle,
    Run,
    Guard,
    Attack,
    Heal,
}

/// The kind of an action.
pub open spec fn spec_action_kind<E>(a: Action<E>) -> ActionKind {
    match a {
        Action::Idle => ActionKind::Idle,
        Action::Run => ActionKind::Run,
        Action::Guard => ActionKind::Guard,
        Action::Attack(_) => ActionKind::Attack,
        Action::Heal(_) => ActionKind::Heal,
    }
}

impl<E> Action<E> {
    /// The kind of this action.
    pub fn kind(&self) -> (res: ActionKind)
        ensures
            res == spec_action_kind(*self),
    {
        match self {
            Action::Idle => ActionKind::Idle,
            Action::Run => ActionKind::Run,
            Action::Guard => ActionKind::Guard,
            Action::Attack(_) => ActionKind::Attack,
            Action::Heal(_) => ActionKind::Heal,
        }
    }
}

/// Every kind of action, in declaration order.
pub fn all_action_kinds() -> (res: Vec<ActionKind>)
    ensures
        res@ == seq![ActionKind::Idle, ActionKind::Run, ActionKind::Guard, ActionKind::Attack, ActionKind::Heal],
{
    vec![ActionKind::Idle, ActionKind::Run, ActionKind::Guard, ActionKind::Attack, ActionKind::Heal]
}

impl ActionKind {
    /// An action of this kind; an attack or a heal is aimed at `target`.
    pub fn to_action<E>(self, target: E) -> (res: Action<E>)
        ensures
            spec_action_kind(res) == self,
            res matches Action::Attack(e) ==> e == target,
            res matches Action::Heal(e) ==> e == target,
    {
        match self {
            ActionKind::Idle => Action::Idle,
            ActionKind::Run => Action::Run,
            ActionKind::Guard => Action::Guard,
            ActionKind::Attack => Action::Attack(target),
            ActionKind::Heal => Action::Heal(target),
        }
    }
}

/// Something that a ranged unit launches.
#[derive(Clone, Copy, Debug, PartialEq, Eq, Structural)]
pub enum Projectile {
    Arrow,
    Bone,
    Harpoon,
    Magic,
}

/// How a projectile flies.
#[derive(Clone, Copy, Debug, PartialEq, Eq, Structural)]
pub enum ProjectileMode {
    Parabolic,
    Straight,
}

impl Projectile {
    /// Whether the projectile is animated while it flies.
    pub fn animation(&self) -> (res: bool)
        ensures
            res == (*self == Projectile::Bone || *self == Projectile::Magic),
    {
        match self {
            Projectile::Bone | Projectile::Magic => true,
            _ => false,
        }
    }

    /// The trajectory of the projectile.
    pub fn mode(&self) -> (res: ProjectileMode)
        ensures
            res == (if *self == Projectile::Arrow || *self == Projectile::Harpoon {
                ProjectileMode::Parabolic
            } else {
                ProjectileMode::Straight
            }),
    {
        match self {
            Projectile::Arrow => ProjectileMode::Parabolic,
            Projectile::Bone => ProjectileMode::Straight,
            Projectile::Harpoon => ProjectileMode::Parabolic,
            Projectile::Magic => ProjectileMode::Straight,
        }
    }
}

/// The projectile a kind of unit launches, if any.
pub open spec fn spec_projectile(u: UnitName) -> Option<Projectile> {
    match u {
        UnitName::Archer => Some(Projectile::Arrow),
        UnitName::Shark => Some(Projectile::Harpoon),
        _ => None,
    }
}

/// Warriors, lancers, archers and priests: the units that the shop always
/// offers.
pub open spec fn spec_is_basic_unit(u: UnitName) -> bool {
    u == UnitName::Warrior || u == UnitName::Lancer || u == UnitName::Archer || u == UnitName::Priest
}

impl UnitName {
    /// The text that describes this kind of unit.
    pub fn description(&self) -> (res: &'static str)
        ensures
            res == spec_unit_description(*self),
    {
        match self {
            UnitName::Warrior => "The warrior is a balanced front-line fighter with solid health and damage. With moderate \
                speed and close-range attacks, warriors excel at holding the line and engaging enemies in \
                direct combat.",
            UnitName::Lancer => "Lancers are swift and deadly units with. They sacrifice some durability for superior speed \
                and reduced spawning times, making them excellent for quick strikes against enemy \
                formations.",
            UnitName::Archer => "Archers have low health and damage, but shoot fast arrows at enemies at a distance. Their \
                exceptional range allows them to harass foes from safety, though they're vulnerable in close \
                combat.",
            UnitName::Priest => "Priests heal damaged units over a range. A priest cannot heal himself. These fragile support \
                units are slow-moving and defenseless, but their powerful healing can turn the tide of \
                battle. Priests do not attack.",
            UnitName::Bear => "A massive forest bully that crushes enemies with its enormous, powerful claws. Bears are \
                often summoned by priests to defend them in close combat.",
            UnitName::Gnome => "A small and fragile magical creature that attacks with a wooden hammer.",
            UnitName::Goblin => "A bad-tempered goblin that uses its spear to pierce through any armor.",
            UnitName::Hammerhead => "A magical sea creature that strikes with a heavy oar, as surprising as it is lethal.",
            UnitName::Minotaur => "A giant magical brute with a giant hammer, delivering strikes with overwhelming force. \
                Minotaurs are strong both in offense and defense.",
            UnitName::Shark => "A long-range magical predator that launches harpoons with deadly precision.",
            UnitName::Skull => "Skulls are fragile units used primarily as fodder or to overwhelm enemies with in huge \
                numbers.",
            UnitName::Snake => "A venomous serpent that strikes to infect its victims with deadly toxins.",
            UnitName::Spider => "A giant arachnid that bites and poisons its victims with every strike.",
            UnitName::Turtle => "Turtles are slow and have low damage, but are incredibly resilient. Their high armor and \
                magic resist make them the perfect units to block a path.",
        }
    }

    /// The letter key that queues the unit from the shop.
    pub fn key(&self) -> (res: char)
        ensures
            res == spec_unit_key(*self),
    {
        match self {
            UnitName::Warrior => 'Z',
            UnitName::Lancer => 'X',
            UnitName::Archer => 'C',
            UnitName::Priest => 'V',
            _ => 'B',
        }
    }

    /// Side of the unit's sprite, in pixels.
    pub fn size(&self) -> (res: u32)
        ensures
            res == spec_size(*self),
    {
        match self {
            UnitName::Lancer => 320,
            UnitName::Bear => 256,
            UnitName::Goblin => 256,
            UnitName::Minotaur => 320,
            UnitName::Turtle => 320,
            _ => 192,
        }
    }

    /// The number of animation frames for an action; 0 when the unit cannot
    /// perform it.
    pub fn frames<E>(&self, action: &Action<E>) -> (res: u32)
        ensures
            res == spec_frames(*self, spec_action_kind(*action)),
    {
        self.frames_of(action.kind())
    }

    /// The number of animation frames for a kind of action.
    pub fn frames_of(&self, kind: ActionKind) -> (res: u32)
        ensures
            res == spec_frames(*self, kind),
    {
        match self {
            UnitName::Warrior => match kind {
                ActionKind::Idle => 8,
                ActionKind::Run => 6,
                ActionKind::Guard => 6,
                ActionKind::Attack => 8,
                _ => 0,
            },
            UnitName::Lancer => match kind {
                ActionKind::Idle => 12,
                ActionKind::Run => 6,
                ActionKind::Attack => 9,
                _ => 0,
            },
            UnitName::Archer => match kind {
                ActionKind::Idle => 6,
                ActionKind::Run => 4,
                ActionKind::Attack => 6,
                _ => 0,
            },
            UnitName::Priest => match kind {
                ActionKind::Idle => 6,
                ActionKind::Run => 4,
                ActionKind::Heal => 11,
                _ => 0,
            },
            UnitName::Bear => match kind {
                ActionKind::Idle => 8,
                ActionKind::Run => 5,
                ActionKind::Attack => 9,
                _ => 0,
            },
            UnitName::Gnome => match kind {
                ActionKind::Idle => 8,
                ActionKind::Run => 6,
                ActionKind::Attack => 7,
                _ => 0,
            },
            UnitName::Goblin => match kind {
                ActionKind::Idle => 7,
                ActionKind::Run => 6,
                ActionKind::Attack => 8,
                _ => 0,
            },
            UnitName::Hammerhead => match kind {
                ActionKind::Idle => 8,
                ActionKind::Run => 6,
                ActionKind::Attack => 6,
                _ => 0,
            },
            UnitName::Minotaur => match kind {
                ActionKind::Idle => 16,
                ActionKind::Run => 8,
                ActionKind::Guard => 11,
                ActionKind::Attack => 12,
                _ => 0,
            },
            UnitName::Shark => match kind {
                ActionKind::Idle => 8,
                ActionKind::Run => 6,
                ActionKind::Attack => 4,
                _ => 0,
            },
            UnitName::Skull => match kind {
                ActionKind::Idle => 8,
                ActionKind::Run => 6,
                ActionKind::Guard => 7,
                ActionKind::Attack => 7,
                _ => 0,
            },
            UnitName::Snake => match kind {
                ActionKind::Idle => 8,
                ActionKind::Run => 8,
                ActionKind::Attack => 6,
                _ => 0,
            },
            UnitName::Spider => match kind {
                ActionKind::Idle => 8,
                ActionKind::Run => 5,
                ActionKind::Attack => 8,
                _ => 0,
            },
            UnitName::Turtle => match kind {
                ActionKind::Idle => 10,
                ActionKind::Run => 7,
                ActionKind::Guard => 6,
                ActionKind::Attack => 10,
                _ => 0,
            },
        }
    }

    /// Whether the unit is one the shop always offers.
    pub fn is_basic_unit(self) -> (res: bool)
        ensures
            res == spec_is_basic_unit(self),
    {
        match self {
            UnitName::Warrior | UnitName::Lancer | UnitName::Archer | UnitName::Priest => true,
            _ => false,
        }
    }

    /// Whether the unit has an attack animation, and so can attack.
    pub fn can_attack(&self) -> (res: bool)
        ensures
            res == (spec_frames(*self, ActionKind::Attack) > 0),
    {
        self.frames_of(ActionKind::Attack) > 0
    }

    /// Whether the unit has a guard animation, and so can guard.
    pub fn can_guard(&self) -> (res: bool)
        ensures
            res == (spec_frames(*self, ActionKind::Guard) > 0),
    {
        self.frames_of(ActionKind::Guard) > 0
    }

    /// Whether the unit acts at a reach of one tile.
    pub fn is_melee(&self) -> (res: bool)
        ensures
            res == (spec_range(*self) == 1),
    {
        self.range() == 1
    }

    /// Reach of the unit's action, in tiles.
    pub fn range(&self) -> (res: u32)
        ensures
            res == spec_range(*self),
    {
        match self {
            UnitName::Archer => 3,
            UnitName::Priest => 3,
            UnitName::Shark => 3,
            _ => 1,
        }
    }

    /// The projectile the unit launches, if any.
    pub fn projectile(&self) -> (res: Option<Projectile>)
        ensures
            res == spec_projectile(*self),
    {
        match self {
            UnitName::Archer => Some(Projectile::Arrow),
            UnitName::Shark => Some(Projectile::Harpoon),
            _ => None,
        }
    }

    /// Milliseconds it takes to spawn a unit of this kind.
    pub fn spawn_duration(&self) -> (res: u64)
        ensures
            res == spec_spawn_duration(*self),
    {
        match self {
            UnitName::Warrior => 2500,
            UnitName::Lancer => 1800,
            UnitName::Archer => 3300,
            UnitName::Priest => 3400,
            UnitName::Bear => 3400,
            UnitName::Gnome => 1000,
            UnitName::Goblin => 2000,
            UnitName::Hammerhead => 1900,
            UnitName::Minotaur => 8900,
            UnitName::Shark => 3500,
            UnitName::Skull => 800,
            UnitName::Snake => 500,
            UnitName::Spider => 2500,
            UnitName::Turtle => 7500,
        }
    }

    /// Walking speed, in world units per second.
    pub fn speed(&self) -> (res: u32)
        ensures
            res == spec_speed(*self),
    {
        match self {
            UnitName::Warrior => 30,
            UnitName::Lancer => 35,
            UnitName::Archer => 25,
            UnitName::Priest => 25,
            UnitName::Bear => 40,
            UnitName::Gnome => 40,
            UnitName::Goblin => 35,
            UnitName::Hammerhead => 35,
            UnitName::Minotaur => 25,
            UnitName::Shark => 25,
            UnitName::Skull => 40,
            UnitName::Snake => 45,
            UnitName::Spider => 30,
            UnitName::Turtle => 15,
        }
    }

    /// Health of a freshly spawned unit.
    pub fn health(&self) -> (res: u32)
        ensures
            res == spec_health(*self),
    {
        match self {
            UnitName::Warrior => 130,
            UnitName::Lancer => 100,
            UnitName::Archer => 60,
            UnitName::Priest => 40,
            UnitName::Bear => 200,
            UnitName::Gnome => 60,
            UnitName::Goblin => 100,
            UnitName::Hammerhead => 100,
            UnitName::Minotaur => 200,
            UnitName::Shark => 60,
            UnitName::Skull => 60,
            UnitName::Snake => 45,
            UnitName::Spider => 100,
            UnitName::Turtle => 350,
        }
    }

    /// Physical damage dealt on hit; negative for healing.
    pub fn physical_damage(&self) -> (res: i32)
        ensures
            res == spec_physical_damage(*self),
    {
        match self {
            UnitName::Warrior => 15,
            UnitName::Lancer => 15,
            UnitName::Archer => 10,
            UnitName::Priest => -30i32,
            UnitName::Bear => 20,
            UnitName::Gnome => 7,
            UnitName::Goblin => 15,
            UnitName::Skull => 8,
            UnitName::Turtle => 5,
            _ => 0,
        }
    }

    /// Magic damage dealt on hit.
    pub fn magic_damage(&self) -> (res: u32)
        ensures
            res == spec_magic_damage(*self),
    {
        match self {
            UnitName::Hammerhead => 15,
            UnitName::Minotaur => 30,
            UnitName::Shark => 10,
            UnitName::Skull => 2,
            UnitName::Snake => 8,
            UnitName::Spider => 18,
            UnitName::Turtle => 5,
            _ => 0,
        }
    }

    /// Armor, which reduces physical damage taken.
    pub fn armor(&self) -> (res: u32)
        ensures
            res == spec_armor(*self),
    {
        match self {
            UnitName::Warrior => 5,
            UnitName::Lancer => 3,
            UnitName::Archer => 1,
            UnitName::Priest => 0,
            UnitName::Bear => 10,
            UnitName::Gnome => 1,
            UnitName::Goblin => 4,
            UnitName::Hammerhead => 3,
            UnitName::Minotaur => 12,
            UnitName::Shark => 0,
            UnitName::Skull => 0,
            UnitName::Snake => 0,
            UnitName::Spider => 5,
            UnitName::Turtle => 20,
        }
    }

    /// Magic resist, which reduces magic damage taken.
    pub fn magic_resist(&self) -> (res: u32)
        ensures
            res == spec_magic_resist(*self),
    {
        match self {
            UnitName::Warrior => 3,
            UnitName::Lancer => 3,
            UnitName::Archer => 0,
            UnitName::Priest => 12,
            UnitName::Bear => 6,
            UnitName::Gnome => 1,
            UnitName::Goblin => 4,
            UnitName::Hammerhead => 7,
            UnitName::Minotaur => 12,
            UnitName::Shark => 2,
            UnitName::Skull => 0,
            UnitName::Snake => 0,
            UnitName::Spider => 2,
            UnitName::Turtle => 20,
        }
    }

    /// Armor penetration: how much of the target's armor is ignored.
    pub fn armor_pen(&self) -> (res: u32)
        ensures
            res == spec_armor_pen(*self),
    {
        match self {
            UnitName::Warrior => 5,
            UnitName::Lancer => 8,
            UnitName::Archer => 2,
            UnitName::Bear => 9,
            UnitName::Gnome => 1,
            UnitName::Goblin => 12,
            UnitName::Hammerhead => 8,
            UnitName::Minotaur => 10,
            UnitName::Shark => 5,
            UnitName::Spider => 3,
            _ => 0,
        }
    }

    /// Magic penetration: how much of the target's magic resist is ignored.
    pub fn magic_pen(&self) -> (res: u32)
        ensures
            res == spec_magic_pen(*self),
    {
        match self {
            UnitName::Hammerhead => 8,
            UnitName::Minotaur => 10,
            UnitName::Shark => 5,
            UnitName::Spider => 3,
            _ => 0,
        }
    }

}

/// The roles of the units: only priests heal and they do not attack;
/// every other unit attacks; a unit is melee exactly when it acts at one
/// tile; the units that launch projectiles are ranged.
pub proof fn unit_roles(u: UnitName)
    ensures
        (spec_frames(u, ActionKind::Heal) > 0) <==> u == UnitName::Priest,
        (spec_frames(u, ActionKind::Attack) > 0) <==> u != UnitName::Priest,
        spec_physical_damage(u) < 0 <==> u == UnitName::Priest,
        spec_projectile(u) is Some ==> spec_range(u) > 1,
        spec_frames(u, ActionKind::Idle) > 0,
        spec_frames(u, ActionKind::Run) > 0,
        (spec_frames(u, ActionKind::Guard) > 0) <==> (u == UnitName::Warrior || u == UnitName::Minotaur
            || u == UnitName::Skull || u == UnitName::Turtle),
{
}

/// What the unit descriptions promise: lancers are faster and quicker to
/// spawn than warriors; archers outrange warriors but have less health;
/// turtles are the slowest units, with the most health, armor and magic
/// resist; minotaurs deal the most magic damage and have the most armor
/// after turtles.
pub proof fn descriptions_hold(u: UnitName)
    ensures
        spec_speed(UnitName::Lancer) > spec_speed(UnitName::Warrior),
        spec_spawn_duration(UnitName::Lancer) < spec_spawn_duration(UnitName::Warrior),
        spec_range(UnitName::Archer) > spec_range(UnitName::Warrior),
        spec_health(UnitName::Archer) < spec_health(UnitName::Warrior),
        spec_speed(UnitName::Turtle) <= spec_speed(u),
        spec_health(u) <= spec_health(UnitName::Turtle),
        spec_armor(u) <= spec_armor(UnitName::Turtle),
        spec_magic_resist(u) <= spec_magic_resist(UnitName::Turtle),
        spec_magic_damage(u) <= spec_magic_damage(UnitName::Minotaur),
        u != UnitName::Turtle ==> spec_armor(u) <= spec_armor(UnitName::Minotaur),
{
}

/// No kind of unit appears twice in `spec_all_units`.
pub(crate) proof fn lemma_all_units_distinct()
    ensures
        spec_all_units().no_duplicates(),
{
    let s = spec_all_units();
    assert forall|i: int, j: int| 0 <= i < s.len() && 0 <= j < s.len() && i != j implies s[i] != s[j] by {
        assert(s[0] == UnitName::Warrior);
    }
}

} // verus!
