//! The buildings of each player: bases and defense towers.

use vstd::prelude::*;

verus! {

/// The kinds of buildings.
#[derive(Clone, Copy, Debug, PartialEq, Eq, Hash, Structural)]
pub enum BuildingName {
    Barracks,
    Castle,
    Tower,
}

impl Default for BuildingName {
    fn default() -> (res: BuildingName)
        ensures
            res == BuildingName::Barracks,
    {
        BuildingName::Barracks
    }
}

/// Every kind of building, in declaration order.
pub fn all_buildings() -> (res: Vec<BuildingName>)
    ensures
        res@ == seq![BuildingName::Barracks, BuildingName::Castle, BuildingName::Tower],
{
    vec![BuildingName::Barracks, BuildingName::Castle, BuildingName::Tower]
}

/// Width and height of the building's sprite, in pixels.
pub open spec fn spec_building_size(b: BuildingName) -> (u32, u32) {
    match b {
        BuildingName::Barracks => (192, 256),
        BuildingName::Castle => (320, 256),
        BuildingName::Tower => (128, 256),
    }
}

/// Where the archers that defend the building stand, relative to its
/// center.
pub open spec fn spec_building_units(b: BuildingName) -> Seq<(i32, i32)> {
    match b {
        BuildingName::Barracks => seq![(-25i32, 20i32), (25i32, 20i32)],
        BuildingName::Castle => seq![(-70i32, 35i32), (0i32, 20i32), (70i32, 35i32)],
        BuildingName::Tower => seq![(0i32, 35i32)],
    }
}

/// Health of an intact building.
pub open spec fn spec_building_health(b: BuildingName) -> u32 {
    match b {
        BuildingName::Barracks => 1000,
        BuildingName::Castle => 2000,
        BuildingName::Tower => 500,
    }
}

impl BuildingName {
    /// Width and height of the building's sprite, in pixels.
    pub fn size(&self) -> (res: (u32, u32))
        ensures
            res == spec_building_size(*self),
    {
        match self {
            BuildingName::Barracks => (192, 256),
            BuildingName::Castle => (320, 256),
            BuildingName::Tower => (128, 256),
        }
    }

    /// Where the archers that defend the building stand, relative to its
    /// center.
    pub fn units(&self) -> (res: Vec<(i32, i32)>)
        ensures
            res@ == spec_building_units(*self),
    {
        match self {
            BuildingName::Barracks => vec![(-25, 20), (25, 20)],
            BuildingName::Castle => vec![(-70, 35), (0, 20), (70, 35)],
            BuildingName::Tower => vec![(0, 35)],
        }
    }

    /// Health of an intact building.
    pub fn health(&self) -> (res: u32)
        ensures
            res == spec_building_health(*self),
    {
        match self {
            BuildingName::Barracks => 1000,
            BuildingName::Castle => 2000,
            BuildingName::Tower => 500,
        }
    }
}

} // verus!
