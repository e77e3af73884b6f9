//! Game rules of a small real-time auto-battler: the map and its lanes,
//! units and buildings, boosts, players and their spawn queues, and the
//! menu and game state machines.

pub mod boosts;
pub mod buildings;
pub mod map;
pub mod movement;
pub mod names;
pub mod player;
pub mod random;
pub mod settings;
pub mod states;
pub mod units;
