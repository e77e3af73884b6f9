//! Where units look for company and where they head next on their lane.

use crate::map::{astar_search, find_path, in_map, try_find_path, Tile};
use crate::player::{spec_attack_speed_percent, spec_defense_percent, Strategy};
use crate::units::{spec_frames, spec_range, unit_roles, ActionKind, UnitName};
use vstd::prelude::*;

verus! {

/// `a - b`, or `0` when `b > a`.
pub open spec fn sat_sub(a: u32, b: u32) -> int {
    if b > a { 0 } else { a - b }
}

/// `t` lies within `d` tiles of `pos` along both axes (the square of side
/// `2d + 1` around `pos`, cut off at coordinate 0).
pub open spec fn in_square(pos: Tile, d: u32, t: Tile) -> bool {
    &&& sat_sub(pos.0, d) <= t.0 <= pos.0 + d
    &&& sat_sub(pos.1, d) <= t.1 <= pos.1 + d
}

/// All tiles at most `d` tiles away from `pos` along both axes, each once.
pub fn get_tiles_at_distance(pos: Tile, d: u32) -> (res: Vec<Tile>)
    requires
        pos.0 + d <= u32::MAX,
        pos.1 + d <= u32::MAX,
    ensures
        forall|t: Tile| res@.contains(t) <==> in_square(pos, d, t),
        res@.no_duplicates(),
{
    let x0: u32 = pos.0.saturating_sub(d);
    let y0: u32 = pos.1.saturating_sub(d);
    let x1: u32 = pos.0 + d;
    let y1: u32 = pos.1 + d;
    let mut res: Vec<Tile> = Vec::new();
    let mut x: u64 = x0 as u64;
    while x <= x1 as u64
        invariant
            x0 == sat_sub(pos.0, d),
            y0 == sat_sub(pos.1, d),
            x1 == pos.0 + d,
            y1 == pos.1 + d,
            x0 <= x <= x1 as u64 + 1,
            res@.no_duplicates(),
            forall|t: Tile| res@.contains(t) <==> (in_square(pos, d, t) && t.0 < x),
        decreases x1 as u64 + 1 - x,
    {
        let mut y: u64 = y0 as u64;
        while y <= y1 as u64
            invariant
                x0 == sat_sub(pos.0, d),
                y0 == sat_sub(pos.1, d),
                x1 == pos.0 + d,
                y1 == pos.1 + d,
                x0 <= x <= x1,
                y0 <= y <= y1 as u64 + 1,
                res@.no_duplicates(),
                forall|t: Tile|
                    res@.contains(t) <==> (in_square(pos, d, t) && (t.0 < x || (t.0 == x && t.1
                        < y))),
            decreases y1 as u64 + 1 - y,
        {
            let t: Tile = (x as u32, y as u32);
            assert(t.0 as int == x as int && t.1 as int == y as int);
            assert(in_square(pos, d, t));
            let ghost old_res = res@;
            assert(!old_res.contains(t));
            res.push(t);
            assert forall|u: Tile|
                res@.contains(u) <==> (in_square(pos, d, u) && (u.0 < x || (u.0 == x && u.1 < y
                    + 1))) by {
                if res@.contains(u) {
                    let k = choose|k: int| 0 <= k < res@.len() && res@[k] == u;
                    if k < old_res.len() {
                        assert(old_res[k] == u);
                    }
                }
                if in_square(pos, d, u) && (u.0 < x || (u.0 == x && u.1 < y + 1)) {
                    if u.0 == t.0 && u.1 == t.1 {
                        assert(res@[res@.len() - 1] == u);
                    } else {
                        assert(old_res.contains(u));
                        let k = choose|k: int| 0 <= k < old_res.len() && old_res[k] == u;
                        assert(res@[k] == u);
                    }
                }
            }
            y = y + 1;
        }
        x = x + 1;
    }
    res
}


/// Taxicab distance between two tiles.
pub open spec fn taxicab(a: Tile, b: Tile) -> int {
    (if a.0 >= b.0 { a.0 - b.0 } else { b.0 - a.0 }) + (if a.1 >= b.1 { a.1 - b.1 } else { b.1 - a.1 })
}

/// Index of the first tile among the first `n` of `path` that is closest
/// to `tile`.
pub open spec fn closest_upto(tile: Tile, path: Seq<Tile>, n: nat) -> int
    decreases n,
{
    if n <= 1 {
        0
    } else {
        let j = closest_upto(tile, path, (n - 1) as nat);
        if taxicab(tile, path[n - 1]) < taxicab(tile, path[j]) {
            n - 1
        } else {
            j
        }
    }
}

/// The tile of `path` after the first one closest to `tile`, or the last
/// tile when the closest one is the last.
pub open spec fn tile_after_closest(tile: Tile, path: Seq<Tile>) -> Tile {
    let j = closest_upto(tile, path, path.len());
    if j + 1 < path.len() {
        path[j + 1]
    } else {
        path.last()
    }
}

/// The distances from `tile` to the tiles of `path` can be summed in 32
/// bits.
pub open spec fn distances_fit(tile: Tile, path: Seq<Tile>) -> bool {
    forall|i: int| 0 <= i < path.len() ==> taxicab(tile, #[trigger] path[i]) <= u32::MAX
}

proof fn lemma_closest_upto(tile: Tile, path: Seq<Tile>, n: nat)
    requires
        1 <= n <= path.len(),
    ensures
        0 <= closest_upto(tile, path, n) < n,
        forall|i: int|
            0 <= i < n ==> taxicab(tile, path[closest_upto(tile, path, n)]) <= taxicab(
                tile,
                #[trigger] path[i],
            ),
        forall|i: int|
            0 <= i < closest_upto(tile, path, n) ==> taxicab(tile, path[closest_upto(tile, path, n)])
                < taxicab(tile, #[trigger] path[i]),
    decreases n,
{
    if n > 1 {
        lemma_closest_upto(tile, path, (n - 1) as nat);
    }
}

/// A unit heads past the path tile nearest to it: the tile it aims for
/// follows the first of the path tiles at the least taxicab distance.
pub proof fn aim_follows_nearest_tile(tile: Tile, path: Seq<Tile>)
    requires
        path.len() > 0,
    ensures
        ({
            let j = closest_upto(tile, path, path.len());
            &&& 0 <= j < path.len()
            &&& forall|i: int| 0 <= i < path.len() ==> taxicab(tile, path[j]) <= taxicab(tile, #[trigger] path[i])
            &&& forall|i: int| 0 <= i < j ==> taxicab(tile, path[j]) < taxicab(tile, #[trigger] path[i])
            &&& tile_after_closest(tile, path) == (if j + 1 < path.len() { path[j + 1] } else { path.last() })
        }),
{
    lemma_closest_upto(tile, path, path.len());
}

fn taxicab_u32(a: Tile, b: Tile) -> (r: u32)
    requires
        taxicab(a, b) <= u32::MAX,
    ensures
        r == taxicab(a, b),
{
    let dx = if a.0 >= b.0 { a.0 - b.0 } else { b.0 - a.0 };
    let dy = if a.1 >= b.1 { a.1 - b.1 } else { b.1 - a.1 };
    dx + dy
}

fn next_path_tile(tile: Tile, path: &Vec<Tile>) -> (res: Tile)
    requires
        path@.len() > 0,
        distances_fit(tile, path@),
    ensures
        res == tile_after_closest(tile, path@),
{
    let mut best: usize = 0;
    let mut best_d: u32 = taxicab_u32(tile, path[0]);
    let mut i: usize = 1;
    while i < path.len()
        invariant
            1 <= i <= path.len(),
            distances_fit(tile, path@),
            best == closest_upto(tile, path@, i as nat),
            best < i,
            best_d == taxicab(tile, path@[best as int]),
        decreases path.len() - i,
    {
        let d = taxicab_u32(tile, path[i]);
        if d < best_d {
            best = i;
            best_d = d;
        }
        i = i + 1;
    }
    if best + 1 < path.len() {
        path[best + 1]
    } else {
        path[path.len() - 1]
    }
}

/// Squared straight-line distance between two tiles.
pub open spec fn distance_sq(a: Tile, b: Tile) -> int {
    (a.0 - b.0) * (a.0 - b.0) + (a.1 - b.1) * (a.1 - b.1)
}

/// Index of the first tile among the first `n` of `path` at the least
/// straight-line distance from `tile`.
pub open spec fn nearest_upto(tile: Tile, path: Seq<Tile>, n: nat) -> int
    decreases n,
{
    if n <= 1 {
        0
    } else {
        let j = nearest_upto(tile, path, (n - 1) as nat);
        if distance_sq(tile, path[n - 1]) < distance_sq(tile, path[j]) {
            n - 1
        } else {
            j
        }
    }
}

/// The path tile after the first one nearest to `tile` in a straight line,
/// or the last tile when the nearest one is the last.
pub open spec fn spec_closest_tile_on_path(tile: Tile, path: Seq<Tile>) -> Tile {
    let j = nearest_upto(tile, path, path.len());
    if j + 1 < path.len() {
        path[j + 1]
    } else {
        path.last()
    }
}

/// The tile a unit heads for along `path`: the one after the path tile
/// nearest to it in a straight line (the first such one), or the last tile
/// when that one is the last. The path must not be empty, and the
/// coordinates small enough that the squared distances are exact in 32-bit
/// floating point, as the game compares them.
pub fn closest_tile_on_path(tile: Tile, path: &Vec<Tile>) -> (res: Tile)
    requires
        path@.len() > 0,
        tile.0 < 0x800,
        tile.1 < 0x800,
        forall|i: int| 0 <= i < path@.len() ==> (#[trigger] path@[i]).0 < 0x800 && path@[i].1 < 0x800,
    ensures
        res == spec_closest_tile_on_path(tile, path@),
{
    let mut nearest: usize = 0;
    let mut min_dist: u64 = u64::MAX;
    let mut i: usize = 0;
    while i < path.len()
        invariant
            i <= path.len(),
            path@.len() > 0,
            tile.0 < 0x800,
            tile.1 < 0x800,
            forall|k: int| 0 <= k < path@.len() ==> (#[trigger] path@[k]).0 < 0x800 && path@[k].1 < 0x800,
            i == 0 ==> nearest == 0 && min_dist == u64::MAX,
            i > 0 ==> nearest == nearest_upto(tile, path@, i as nat) && nearest < i && min_dist
                == distance_sq(tile, path@[nearest as int]),
        decreases path.len() - i,
    {
        let t = path[i];
        let dx: u64 = if tile.0 >= t.0 { (tile.0 - t.0) as u64 } else { (t.0 - tile.0) as u64 };
        let dy: u64 = if tile.1 >= t.1 { (tile.1 - t.1) as u64 } else { (t.1 - tile.1) as u64 };
        assert(dx * dx <= 0x800 * 0x800) by (nonlinear_arith)
            requires dx < 0x800;
        assert(dy * dy <= 0x800 * 0x800) by (nonlinear_arith)
            requires dy < 0x800;
        let d = dx * dx + dy * dy;
        assert(d == distance_sq(tile, t)) by (nonlinear_arith)
            requires
                dx == (if tile.0 >= t.0 { tile.0 - t.0 } else { t.0 - tile.0 }),
                dy == (if tile.1 >= t.1 { tile.1 - t.1 } else { t.1 - tile.1 }),
                d == dx * dx + dy * dy;
        if d < min_dist {
            nearest = i;
            min_dist = d;
        }
        i = i + 1;
    }
    if nearest + 1 < path.len() {
        path[nearest + 1]
    } else {
        path[path.len() - 1]
    }
}

/// The next tile a unit on `tile` walks to: the second tile of the route
/// from `tile` to the path tile after the one closest to it. That route
/// must exist and take at least one step.
pub fn get_target_tile(tile: Tile, path: &Vec<Tile>) -> (res: Tile)
    requires
        path@.len() > 0,
        distances_fit(tile, path@),
        in_map(tile.0 as int, tile.1 as int),
        astar_search(tile, tile_after_closest(tile, path@)) matches Some((r, _)) && r.len() >= 2,
    ensures
        res == astar_search(tile, tile_after_closest(tile, path@)).unwrap().0[1],
{
    let goal = next_path_tile(tile, path);
    let route = find_path(tile, goal);
    route[1]
}

/// The next tile a unit on `tile` walks to along `path` (see
/// `get_target_tile`), or `None` when there is no route to it that takes a
/// step.
pub fn try_get_target_tile(tile: Tile, path: &Vec<Tile>) -> (res: Option<Tile>)
    requires
        path@.len() > 0,
        distances_fit(tile, path@),
        in_map(tile.0 as int, tile.1 as int),
    ensures
        res is Some <==> (astar_search(tile, tile_after_closest(tile, path@)) matches Some((r, _))
            && r.len() >= 2),
        res matches Some(t) ==> t == astar_search(tile, tile_after_closest(tile, path@)).unwrap().0[1],
{
    let goal = next_path_tile(tile, path);
    match try_find_path(tile, goal) {
        Some(route) => {
            if route.len() >= 2 {
                Some(get_target_tile(tile, path))
            } else {
                None
            }
        },
        None => None,
    }
}

/// What a walking unit does about another unit within its reach.
#[derive(Clone, Copy, Debug, PartialEq, Eq, Structural)]
pub enum Interaction {
    /// Heal the other unit.
    Heal,
    /// Attack the other unit.
    Attack,
    /// Keep walking, stepping aside if the other unit is close.
    Pass,
}

/// What a walking unit does about another unit within its reach (nothing
/// about itself: a priest cannot heal himself): a priest heals a hurt
/// ally; a unit that can attack attacks an enemy, at once when
/// ranged and once it is close when melee, unless its player marches and
/// so ignores the enemies; otherwise it walks on. Priests do not attack.
pub open spec fn spec_interaction(
    unit: UnitName,
    itself: bool,
    ally: bool,
    other_hurt: bool,
    close: bool,
    strategy: Strategy,
) -> Interaction {
    if itself {
        Interaction::Pass
    } else if unit == UnitName::Priest && ally && other_hurt {
        Interaction::Heal
    } else if !ally && strategy != Strategy::March && spec_frames(unit, ActionKind::Attack) > 0 && (
    spec_range(unit) != 1 || close) {
        Interaction::Attack
    } else {
        Interaction::Pass
    }
}

/// What a walking unit does about another unit within its reach. `itself`
/// tells whether the other unit is the unit itself, `ally` whether it has
/// the same color, `other_hurt` whether it
/// lost health, `close` whether it is within the distance at which units
/// push each other aside, and `strategy` is the strategy of the unit's
/// player.
pub fn interaction(
    unit: UnitName,
    itself: bool,
    ally: bool,
    other_hurt: bool,
    close: bool,
    strategy: Strategy,
) -> (res: Interaction)
    ensures
        res == spec_interaction(unit, itself, ally, other_hurt, close, strategy),
{
    if itself {
        Interaction::Pass
    } else if unit == UnitName::Priest && ally && other_hurt {
        Interaction::Heal
    } else if !ally && strategy != Strategy::March && unit.can_attack() && (!unit.is_melee() || close) {
        Interaction::Attack
    } else {
        Interaction::Pass
    }
}

/// Whether two units close to each other push each other aside: always,
/// except two units of a player whose no-collision boost is active.
pub fn collide(ally: bool, no_collision: bool) -> (res: bool)
    ensures
        res == !(ally && no_collision),
{
    !(ally && no_collision)
}

/// How fast a unit walks, in percent of its speed: half again as fast when
/// its player marches, twice as fast under the run boost, and not at all
/// while the enemy's frozen boost holds it.
pub open spec fn spec_movement_percent(strategy: Strategy, run: bool, frozen: bool) -> u32 {
    if frozen {
        0
    } else {
        let march: u32 = if strategy == Strategy::March { 150 } else { 100 };
        if run { (march * 2) as u32 } else { march }
    }
}

/// How fast a unit walks, in percent of its speed (see
/// `spec_movement_percent`).
pub fn movement_percent(strategy: Strategy, run: bool, frozen: bool) -> (res: u32)
    ensures
        res == spec_movement_percent(strategy, run, frozen),
{
    if frozen {
        return 0;
    }
    let march: u32 = if strategy == Strategy::March {
        150
    } else {
        100
    };
    if run {
        march * 2
    } else {
        march
    }
}

/// Whether a unit keeps attacking or healing its target: an attack on a
/// building goes on while the building stands; an attack on a unit while
/// the unit exists and is within reach; a heal while the unit exists, is
/// within reach and is still hurt. Other actions are kept as they are.
pub open spec fn spec_keeps_action(
    kind: ActionKind,
    target_is_building: bool,
    target_exists: bool,
    in_reach: bool,
    target_hurt: bool,
) -> bool {
    match kind {
        ActionKind::Attack => target_is_building || (target_exists && in_reach),
        ActionKind::Heal => target_exists && in_reach && target_hurt,
        _ => true,
    }
}

/// Whether a unit keeps its current action (else it goes back to idle).
pub fn keeps_action(
    kind: ActionKind,
    target_is_building: bool,
    target_exists: bool,
    in_reach: bool,
    target_hurt: bool,
) -> (res: bool)
    ensures
        res == spec_keeps_action(kind, target_is_building, target_exists, in_reach, target_hurt),
{
    match kind {
        ActionKind::Attack => target_is_building || (target_exists && in_reach),
        ActionKind::Heal => target_exists && in_reach && target_hurt,
        _ => true,
    }
}

/// A unit does nothing about itself, so a priest cannot heal himself; a
/// priest never heals an enemy, never heals an ally that is not hurt, and
/// never attacks; a unit never attacks an ally, nor anyone while its
/// player marches; otherwise every other unit attacks an enemy within its
/// reach, a melee one once it is close.
pub proof fn interactions_respect_sides(
    unit: UnitName,
    itself: bool,
    ally: bool,
    other_hurt: bool,
    close: bool,
    strategy: Strategy,
)
    ensures
        spec_interaction(unit, itself, ally, other_hurt, close, strategy) == Interaction::Heal ==> unit
            == UnitName::Priest && ally && other_hurt,
        spec_interaction(unit, itself, ally, other_hurt, close, strategy) == Interaction::Attack ==> !ally,
        spec_interaction(UnitName::Priest, itself, ally, other_hurt, close, strategy) != Interaction::Attack,
        spec_interaction(unit, itself, ally, other_hurt, close, Strategy::March) != Interaction::Attack,
        spec_interaction(unit, true, ally, other_hurt, close, strategy) == Interaction::Pass,
        unit != UnitName::Priest && !itself && !ally && strategy != Strategy::March && (spec_range(unit) != 1 || close)
            ==> spec_interaction(unit, itself, ally, other_hurt, close, strategy) == Interaction::Attack,
{
    unit_roles(unit);
}

/// The strategies do what their descriptions say: marching units ignore
/// the enemies and walk half again as fast; guarding units have half
/// again as much armor and magic resist, and units of a guarding player
/// that can guard go into their stand when attacked; berserk units attack
/// 30% faster with half the armor and magic resist; the attack strategy
/// changes nothing.
pub proof fn strategies_as_described(unit: UnitName, itself: bool, ally: bool, other_hurt: bool, close: bool)
    ensures
        spec_interaction(unit, itself, ally, other_hurt, close, Strategy::March) != Interaction::Attack,
        spec_movement_percent(Strategy::March, false, false) == 150,
        spec_defense_percent(Strategy::Guard, true, false) == 150,
        spec_defense_percent(Strategy::Berserk, false, false) == 50,
        spec_attack_speed_percent(Strategy::Berserk) == 130,
        spec_defense_percent(Strategy::Attack, false, false) == 100,
        spec_attack_speed_percent(Strategy::Attack) == 100,
        spec_movement_percent(Strategy::Attack, false, false) == 100,
        spec_movement_percent(Strategy::Attack, true, false) == 200,
        spec_movement_percent(Strategy::March, true, true) == 0,
{
}

/// A unit keeps to one target until it is done with it: an attack on a
/// building goes on while it stands, an attack on a unit until the enemy
/// has died or walked out of reach, a heal until the ally is gone, out of
/// reach or healed; walking, standing and guarding are never cut short
/// here.
pub proof fn one_target_until_done(target_is_building: bool, target_exists: bool, in_reach: bool, target_hurt: bool)
    ensures
        spec_keeps_action(ActionKind::Attack, true, target_exists, in_reach, target_hurt),
        spec_keeps_action(ActionKind::Attack, false, target_exists, in_reach, target_hurt) <==> (target_exists
            && in_reach),
        spec_keeps_action(ActionKind::Heal, target_is_building, target_exists, in_reach, target_hurt) <==> (
        target_exists && in_reach && target_hurt),
        spec_keeps_action(ActionKind::Idle, target_is_building, target_exists, in_reach, target_hurt),
        spec_keeps_action(ActionKind::Run, target_is_building, target_exists, in_reach, target_hurt),
        spec_keeps_action(ActionKind::Guard, target_is_building, target_exists, in_reach, target_hurt),
{
}

} // verus!
