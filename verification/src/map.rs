//! The tile map: which tiles can be walked on, how units step between tiles,
//! and the three lanes that connect the two bases.

use vstd::prelude::*;

verus! {

/// A tile position on the map: `(x, y)`, with `y` growing downwards.
pub type Tile = (u32, u32);

/// Width of the map in tiles.
pub const MAP_WIDTH: u32 = 30;

/// Height of the map in tiles.
pub const MAP_HEIGHT: u32 = 16;

/// Side length of a tile in world units.
pub const TILE_SIZE: u32 = 64;

/// The bit mask of walkable tiles in row `y`; bit `29 - x` is set when
/// tile `(x, y)` can be walked on.
pub open spec fn row_bits(y: int) -> u32 {
    if y == 0 { 0b001110000000000000000000011100 }
    else if y == 1 { 0b001111111000011110000001111110 }
    else if y == 2 { 0b001111111101111110000011111110 }
    else if y == 3 { 0b001111111111000011000111001110 }
    else if y == 4 { 0b001111000000111101111100111110 }
    else if y == 5 { 0b000111111111111110000011111110 }
    else if y == 6 { 0b000000110000111111111111110000 }
    else if y == 7 { 0b000111111011011111111001111100 }
    else if y == 8 { 0b000000001111100110000110111100 }
    else if y == 9 { 0b000011111111111001111111111000 }
    else if y == 10 { 0b000011111111111101111111000000 }
    else if y == 11 { 0b000111100011001111111111100000 }
    else if y == 12 { 0b000111100000000111111011100000 }
    else if y == 13 { 0b000000000000000111110000000000 }
    else if y == 14 { 0b000000000000000111100000000000 }
    else { 0 }
}

/// `(x, y)` lies on the map.
pub open spec fn in_map(x: int, y: int) -> bool {
    0 <= x < MAP_WIDTH && 0 <= y < MAP_HEIGHT
}

/// Tile `(x, y)` lies on the map and can be walked on.
pub open spec fn walkable(x: int, y: int) -> bool {
    in_map(x, y) && row_bits(y) & (1u32 << ((29 - x) as u32)) != 0
}

fn row_mask(y: u32) -> (bits: u32)
    requires
        y < MAP_HEIGHT,
    ensures
        bits == row_bits(y as int),
{
    match y {
        0 => 0b001110000000000000000000011100,
        1 => 0b001111111000011110000001111110,
        2 => 0b001111111101111110000011111110,
        3 => 0b001111111111000011000111001110,
        4 => 0b001111000000111101111100111110,
        5 => 0b000111111111111110000011111110,
        6 => 0b000000110000111111111111110000,
        7 => 0b000111111011011111111001111100,
        8 => 0b000000001111100110000110111100,
        9 => 0b000011111111111001111111111000,
        10 => 0b000011111111111101111111000000,
        11 => 0b000111100011001111111111100000,
        12 => 0b000111100000000111111011100000,
        13 => 0b000000000000000111110000000000,
        14 => 0b000000000000000111100000000000,
        _ => 0,
    }
}

/// Whether the tile can be walked on.
pub fn is_walkable(pos: Tile) -> (res: bool)
    requires
        pos.0 < MAP_WIDTH,
        pos.1 < MAP_HEIGHT,
    ensures
        res == walkable(pos.0 as int, pos.1 as int),
{
    row_mask(pos.1) & (1u32 << (MAP_WIDTH - 1 - pos.0)) != 0
}


/// Horizontal component of the `k`-th of the eight moves, in the order in
/// which they are tried: left, right, up, down, then the four diagonals.
pub open spec fn move_dx(k: int) -> int {
    if k == 0 || k == 4 || k == 5 { -1 } else if k == 1 || k == 6 || k == 7 { 1 } else { 0 }
}

/// Vertical component of the `k`-th move.
pub open spec fn move_dy(k: int) -> int {
    if k == 2 || k == 4 || k == 6 { -1 } else if k == 3 || k == 5 || k == 7 { 1 } else { 0 }
}

/// A coordinate read as a 32-bit signed integer.
pub open spec fn signed(v: u32) -> int {
    if v < 0x8000_0000 { v as int } else { v as int - 0x1_0000_0000 }
}

/// The tile that the `k`-th move from `p` leads to.
pub open spec fn step_x(p: Tile, k: int) -> int {
    signed(p.0) + move_dx(k)
}

/// See `step_x`.
pub open spec fn step_y(p: Tile, k: int) -> int {
    signed(p.1) + move_dy(k)
}

/// The `k`-th move from `p` is allowed: it ends on a walkable tile and, when
/// diagonal, does not cut the corner of an unwalkable tile.
pub open spec fn move_allowed(p: Tile, k: int) -> bool {
    let nx = step_x(p, k);
    let ny = step_y(p, k);
    &&& walkable(nx, ny)
    &&& (move_dx(k) == 0 || move_dy(k) == 0 || (walkable(nx, p.1 as int) && walkable(
        p.0 as int,
        ny,
    )))
}

/// The allowed moves among the first `n`, in order.
pub open spec fn neighbors_upto(p: Tile, n: nat) -> Seq<Tile>
    decreases n,
{
    if n == 0 {
        Seq::empty()
    } else {
        let k = n - 1;
        let prev = neighbors_upto(p, (n - 1) as nat);
        if move_allowed(p, k) {
            prev.push((step_x(p, k) as u32, step_y(p, k) as u32))
        } else {
            prev
        }
    }
}

/// The tiles a unit on `p` can step to, in the order of the eight moves.
pub open spec fn neighbors(p: Tile) -> Seq<Tile> {
    neighbors_upto(p, 8)
}

/// Looking at the neighbors of `p` stays within what the tile grid can
/// answer: no coordinate sits at the edge of the signed 32-bit range, and a
/// diagonal move that lands on a walkable tile starts from a tile on the
/// map whenever its corners are looked at.
pub open spec fn neighbors_defined(p: Tile) -> bool {
    &&& p.0 != 0x7fff_ffff && p.0 != 0x8000_0000
    &&& p.1 != 0x7fff_ffff && p.1 != 0x8000_0000
    &&& forall|k: int|
        4 <= k < 8 && #[trigger] walkable(step_x(p, k), step_y(p, k)) ==> (p.1 < MAP_HEIGHT && (
        walkable(step_x(p, k), p.1 as int) ==> p.0 < MAP_WIDTH))
}

fn move_delta(k: usize) -> (d: (i64, i64))
    requires
        k < 8,
    ensures
        d.0 == move_dx(k as int),
        d.1 == move_dy(k as int),
{
    match k {
        0 => (-1, 0),
        1 => (1, 0),
        2 => (0, -1),
        3 => (0, 1),
        4 => (-1, -1),
        5 => (-1, 1),
        6 => (1, -1),
        _ => (1, 1),
    }
}

fn signed_coord(v: u32) -> (r: i64)
    ensures
        r == signed(v),
{
    if v < 0x8000_0000 {
        v as i64
    } else {
        v as i64 - 0x1_0000_0000
    }
}

/// The tiles a unit on `pos` can step to: the eight surrounding tiles that
/// are walkable, leaving out diagonal steps that would cut a corner.
pub fn get_neighbors(pos: Tile) -> (res: Vec<Tile>)
    requires
        neighbors_defined(pos),
    ensures
        res@ == neighbors(pos),
{
    let mut res: Vec<Tile> = Vec::new();
    let x = signed_coord(pos.0);
    let y = signed_coord(pos.1);
    let mut k: usize = 0;
    while k < 8
        invariant
            k <= 8,
            x == signed(pos.0),
            y == signed(pos.1),
            neighbors_defined(pos),
            res@ == neighbors_upto(pos, k as nat),
        decreases 8 - k,
    {
        let (dx, dy) = move_delta(k);
        let nx = x + dx;
        let ny = y + dy;
        let ghost kk = k as int;
        assert(nx == step_x(pos, kk) && ny == step_y(pos, kk));
        if nx >= 0 && ny >= 0 && nx < MAP_WIDTH as i64 && ny < MAP_HEIGHT as i64 {
            let new_pos: Tile = (nx as u32, ny as u32);
            if is_walkable(new_pos) {
                if dx != 0 && dy != 0 {
                    assert(walkable(step_x(pos, kk), step_y(pos, kk)));
                    let pos1: Tile = (nx as u32, pos.1);
                    if is_walkable(pos1) {
                        let pos2: Tile = (pos.0, ny as u32);
                        if is_walkable(pos2) {
                            res.push(new_pos);
                        }
                    }
                } else {
                    res.push(new_pos);
                }
            }
        }
        k = k + 1;
    }
    res
}


/// Units only step onto walkable tiles of the map: every tile on the map
/// can be asked for its neighbors, and every neighbor lies on the map and
/// is walkable.
pub proof fn neighbors_are_walkable(p: Tile)
    requires
        in_map(p.0 as int, p.1 as int),
    ensures
        neighbors_defined(p),
        forall|i: int|
            0 <= i < neighbors(p).len() ==> {
                let t = #[trigger] neighbors(p)[i];
                in_map(t.0 as int, t.1 as int) && walkable(t.0 as int, t.1 as int)
            },
{
    lemma_neighbors_upto_walkable(p, 8);
}

proof fn lemma_neighbors_upto_walkable(p: Tile, n: nat)
    ensures
        forall|i: int|
            0 <= i < neighbors_upto(p, n).len() ==> {
                let t = #[trigger] neighbors_upto(p, n)[i];
                walkable(t.0 as int, t.1 as int)
            },
    decreases n,
{
    if n > 0 {
        lemma_neighbors_upto_walkable(p, (n - 1) as nat);
        let k = n - 1;
        if move_allowed(p, k) {
            let nx = step_x(p, k);
            let ny = step_y(p, k);
            assert(in_map(nx, ny));
            assert((nx as u32) as int == nx && (ny as u32) as int == ny);
            let prev = neighbors_upto(p, k as nat);
            let t: Tile = (nx as u32, ny as u32);
            assert forall|i: int| 0 <= i < prev.push(t).len() implies {
                let u = #[trigger] prev.push(t)[i];
                walkable(u.0 as int, u.1 as int)
            } by {
                if i < prev.len() {
                    assert(prev.push(t)[i] == prev[i]);
                } else {
                    assert(prev.push(t)[i] == t);
                    assert(walkable(nx, ny));
                    assert(walkable(t.0 as int, t.1 as int));
                }
            }
            assert(neighbors_upto(p, n) == prev.push(t));
        } else {
            assert(neighbors_upto(p, n) == neighbors_upto(p, k as nat));
        }
    }
}

/// `path` is a route from `start` to `end`: it begins on `start`, ends on
/// `end`, every step goes to a neighbor, and no tile is visited twice.
pub open spec fn is_route(path: Seq<Tile>, start: Tile, end: Tile) -> bool {
    &&& is_walk(path, start, end)
    &&& path.no_duplicates()
}

/// `path` is a walk from `start` to `end`: it begins on `start`, ends on
/// `end`, and every step goes to a neighbor.
pub open spec fn is_walk(path: Seq<Tile>, start: Tile, end: Tile) -> bool {
    &&& path.len() >= 1
    &&& path[0] == start
    &&& path.last() == end
    &&& forall|i: int| 0 <= i < path.len() - 1 ==> neighbors(path[i]).contains(#[trigger] path[i + 1])
}

/// The estimate that the search uses for the cost left from a tile: its
/// taxicab distance to the start of the search.
pub open spec fn start_distance(start: Tile, p: Tile) -> int {
    let dx = start.0 - p.0;
    let dy = start.1 - p.1;
    (if dx < 0 { -dx } else { dx }) + (if dy < 0 { -dy } else { dy })
}

/// The route that the A* search finds from `start` to `end` on the tile
/// graph of `neighbors` (every step costing 1, the estimate being
/// `start_distance`), with its total cost, or `None` when it finds none.
pub uninterp spec fn astar_search(start: Tile, end: Tile) -> Option<(Seq<Tile>, i32)>;

fn search_successors(p: Tile) -> (res: Vec<(Tile, i32)>)
    requires
        neighbors_defined(p),
    ensures
        res@.len() == neighbors(p).len(),
        forall|i: int| 0 <= i < res@.len() ==> #[trigger] res@[i] == (neighbors(p)[i], 1i32),
{
    let ns = get_neighbors(p);
    let mut res: Vec<(Tile, i32)> = Vec::new();
    let mut i: usize = 0;
    while i < ns.len()
        invariant
            i <= ns.len(),
            ns@ == neighbors(p),
            res@.len() == i,
            forall|j: int| 0 <= j < i ==> #[trigger] res@[j] == (ns@[j], 1i32),
        decreases ns.len() - i,
    {
        res.push((ns[i], 1));
        i = i + 1;
    }
    res
}

fn search_estimate(start: Tile, p: Tile) -> (h: i32)
    requires
        in_map(start.0 as int, start.1 as int),
        in_map(p.0 as int, p.1 as int),
    ensures
        h == start_distance(start, p),
{
    let dx = start.0 as i32 - p.0 as i32;
    let dy = start.1 as i32 - p.1 as i32;
    (if dx < 0 { -dx } else { dx }) + (if dy < 0 { -dy } else { dy })
}

fn search_reached(p: Tile, end: Tile) -> (r: bool)
    ensures
        r == (p == end),
{
    p.0 == end.0 && p.1 == end.1
}

/// Runs `pathfinding::directed::astar::astar` from `start` towards `end`
/// over the neighbor graph of the map. Believed without proof: the result
/// is the named `astar_search(start, end)`, and, as the crate documents, a
/// path that it returns starts on `start`, ends on the goal, follows the
/// successors it was given, and never holds a node twice. Which of several
/// equally good routes it returns, and when it returns `None`, is left
/// unsaid.
#[verifier::external_body]
fn astar_route(start: Tile, end: Tile) -> (res: Option<(Vec<Tile>, i32)>)
    requires
        in_map(start.0 as int, start.1 as int),
    ensures
        res is Some <==> astar_search(start, end) is Some,
        res matches Some((path, cost)) ==> astar_search(start, end) == Some((path@, cost))
            && is_route(path@, start, end),
{
    pathfinding::directed::astar::astar(
        &start,
        |p| search_successors(*p),
        |p| search_estimate(start, *p),
        |p| search_reached(*p, end),
    )
}

/// The route from `start` to `end`. The search must find one: where it
/// finds none there is nothing to return.
pub fn find_path(start: Tile, end: Tile) -> (res: Vec<Tile>)
    requires
        in_map(start.0 as int, start.1 as int),
        astar_search(start, end) is Some,
    ensures
        res@ == astar_search(start, end).unwrap().0,
        is_route(res@, start, end),
{
    match astar_route(start, end) {
        Some((path, _)) => path,
        None => Vec::new(),
    }
}

/// The route from `start` to `end`, or `None` when the search finds none.
pub fn try_find_path(start: Tile, end: Tile) -> (res: Option<Vec<Tile>>)
    requires
        in_map(start.0 as int, start.1 as int),
    ensures
        res is Some <==> astar_search(start, end) is Some,
        res matches Some(path) ==> path@ == astar_search(start, end).unwrap().0 && is_route(
            path@,
            start,
            end,
        ),
{
    match astar_route(start, end) {
        Some(_) => Some(find_path(start, end)),
        None => None,
    }
}


/// One of the three lanes between the bases.
#[derive(Clone, Copy, Debug, PartialEq, Eq, Hash)]
pub enum Path {
    Top,
    Mid,
    Bot,
}

/// The lanes, in order.
pub fn all_paths() -> (res: Vec<Path>)
    ensures
        res@ == seq![Path::Top, Path::Mid, Path::Bot],
{
    vec![Path::Top, Path::Mid, Path::Bot]
}

/// The tile in the middle of a lane that every route along it passes.
pub open spec fn spec_waypoint(p: Path) -> Tile {
    match p {
        Path::Top => (14, 2),
        Path::Mid => (14, 6),
        Path::Bot => (14, 10),
    }
}

impl Path {
    /// The tile in the middle of the lane that the route passes through.
    pub fn waypoint(&self) -> (res: Tile)
        ensures
            res == spec_waypoint(*self),
    {
        match self {
            Path::Top => (14, 2),
            Path::Mid => (14, 6),
            Path::Bot => (14, 10),
        }
    }
}

/// The tile in front of the left base, where the lanes start.
pub open spec fn left_start() -> Tile {
    (3, 0)
}

/// The tile in front of the right base, where the lanes end.
pub open spec fn right_start() -> Tile {
    (27, 0)
}

/// The starting tiles of the two bases: left, then right.
pub fn starting_positions() -> (res: Vec<Tile>)
    ensures
        res@ == seq![left_start(), right_start()],
{
    vec![(3, 0), (27, 0)]
}

/// Both halves of the lane can be found by the search.
pub open spec fn lane_found(p: Path) -> bool {
    &&& astar_search(left_start(), spec_waypoint(p)) is Some
    &&& astar_search(spec_waypoint(p), right_start()) is Some
}

/// The route of a lane: from the left base to the waypoint, then on to the
/// right base, the waypoint appearing once.
pub open spec fn lane_route(p: Path) -> Seq<Tile> {
    let first = astar_search(left_start(), spec_waypoint(p)).unwrap().0;
    let second = astar_search(spec_waypoint(p), right_start()).unwrap().0;
    first + second.drop_first()
}

/// Every lane can be found.
pub open spec fn lanes_found() -> bool {
    lane_found(Path::Top) && lane_found(Path::Mid) && lane_found(Path::Bot)
}

/// The two halves of a lane, as found by the search, are routes: from the
/// left base to the waypoint, and from the waypoint to the right base.
pub open spec fn lane_halves_are_routes(p: Path) -> bool {
    &&& is_route(astar_search(left_start(), spec_waypoint(p)).unwrap().0, left_start(), spec_waypoint(p))
    &&& is_route(astar_search(spec_waypoint(p), right_start()).unwrap().0, spec_waypoint(p), right_start())
}

fn copy_tiles(v: &Vec<Tile>) -> (res: Vec<Tile>)
    ensures
        res@ == v@,
{
    let mut res: Vec<Tile> = Vec::new();
    let mut i: usize = 0;
    while i < v.len()
        invariant
            i <= v.len(),
            res@ == v@.subrange(0, i as int),
        decreases v.len() - i,
    {
        res.push(v[i]);
        i = i + 1;
        assert(res@ == v@.subrange(0, i as int));
    }
    assert(v@.subrange(0, v@.len() as int) == v@);
    res
}

fn build_lane(p: Path) -> (res: Vec<Tile>)
    requires
        lane_found(p),
    ensures
        res@ == lane_route(p),
        lane_halves_are_routes(p),
{
    let wp = p.waypoint();
    let mut route = find_path((3, 0), wp);
    let second = find_path(wp, (27, 0));
    let ghost first = route@;
    let mut i: usize = 1;
    while i < second.len()
        invariant
            1 <= i <= second.len(),
            route@ == first + second@.subrange(1, i as int),
        decreases second.len() - i,
    {
        route.push(second[i]);
        i = i + 1;
        assert(route@ == first + second@.subrange(1, i as int));
    }
    assert(second@.subrange(1, second@.len() as int) == second@.drop_first());
    route
}

/// The lanes of the map, each as the list of tiles a unit walks along from
/// the left base to the right base.
pub struct TileMap {
    top: Vec<Tile>,
    mid: Vec<Tile>,
    bot: Vec<Tile>,
}

impl TileMap {
    /// The stored route of a lane.
    pub closed spec fn route(self, p: Path) -> Seq<Tile> {
        match p {
            Path::Top => self.top@,
            Path::Mid => self.mid@,
            Path::Bot => self.bot@,
        }
    }

    /// Every lane was found, is stored as found, and its halves are routes.
    pub closed spec fn wf(self) -> bool {
        &&& lanes_found()
        &&& forall|p: Path| #[trigger] self.route(p) == lane_route(p) && lane_halves_are_routes(p)
    }

    /// Computes the three lanes. Every lane must be found by the search.
    pub fn new() -> (res: TileMap)
        requires
            lanes_found(),
        ensures
            res.wf(),
            forall|p: Path| #[trigger] res.route(p) == lane_route(p),
    {
        let top = build_lane(Path::Top);
        let mid = build_lane(Path::Mid);
        let bot = build_lane(Path::Bot);
        let m = TileMap { top, mid, bot };
        assert forall|p: Path| #[trigger] m.route(p) == lane_route(p) && lane_halves_are_routes(p) by {
            match p {
                Path::Top => {},
                Path::Mid => {},
                Path::Bot => {},
            }
        }
        m
    }

    /// Computes the three lanes, or returns `None` when the search does not
    /// find one of them.
    pub fn try_new() -> (res: Option<TileMap>)
        ensures
            res is Some <==> lanes_found(),
            res matches Some(m) ==> m.wf() && forall|p: Path| #[trigger] m.route(p) == lane_route(p),
    {
        let paths = all_paths();
        let mut k: usize = 0;
        while k < 3
            invariant
                k <= 3,
                paths@ == seq![Path::Top, Path::Mid, Path::Bot],
                forall|j: int| 0 <= j < k ==> lane_found(#[trigger] paths@[j]),
            decreases 3 - k,
        {
            let p = paths[k];
            let wp = p.waypoint();
            if try_find_path((3, 0), wp).is_none() {
                return None;
            }
            if try_find_path(wp, (27, 0)).is_none() {
                return None;
            }
            k = k + 1;
        }
        assert(lane_found(paths@[0]) && lane_found(paths@[1]) && lane_found(paths@[2]));
        Some(TileMap::new())
    }

    /// The tiles of a lane, from the left base to the right base.
    pub fn path(&self, p: Path) -> (res: Vec<Tile>)
        requires
            self.wf(),
        ensures
            res@ == self.route(p),
            res@ == lane_route(p),
    {
        match p {
            Path::Top => copy_tiles(&self.top),
            Path::Mid => copy_tiles(&self.mid),
            Path::Bot => copy_tiles(&self.bot),
        }
    }
}

proof fn lemma_walk_concat(a: Seq<Tile>, b: Seq<Tile>, s: Tile, m: Tile, e: Tile)
    requires
        is_walk(a, s, m),
        is_walk(b, m, e),
    ensures
        is_walk(a + b.drop_first(), s, e),
        (a + b.drop_first()).contains(m),
{
    let c = a + b.drop_first();
    assert(c[a.len() - 1] == m);
    if b.len() > 1 {
        assert(c.last() == b.last());
    } else {
        assert(c.last() == a.last());
    }
    assert forall|i: int| 0 <= i < c.len() - 1 implies neighbors(c[i]).contains(#[trigger] c[i + 1]) by {
        if i < a.len() - 1 {
            assert(c[i] == a[i] && c[i + 1] == a[i + 1]);
        } else if i == a.len() - 1 {
            assert(c[i] == b[0] && c[i + 1] == b[1]);
        } else {
            let j = i - a.len() + 1;
            assert(c[i] == b[j] && c[i + 1] == b[j + 1]);
        }
    }
}

proof fn lemma_walk_walkable(w: Seq<Tile>, s: Tile, e: Tile)
    requires
        is_walk(w, s, e),
        walkable(s.0 as int, s.1 as int),
    ensures
        forall|i: int| 0 <= i < w.len() ==> walkable((#[trigger] w[i]).0 as int, w[i].1 as int),
{
    assert forall|i: int| 0 <= i < w.len() implies walkable((#[trigger] w[i]).0 as int, w[i].1 as int) by {
        if i > 0 {
            let prev = w[i - 1];
            assert(neighbors(prev).contains(w[(i - 1) + 1]));
            lemma_neighbors_upto_walkable(prev, 8);
            let k = choose|k: int| 0 <= k < neighbors(prev).len() && neighbors(prev)[k] == w[i];
            assert(neighbors(prev)[k] == w[i]);
        }
    }
}

/// The tiles in front of both bases are walkable.
pub proof fn starting_tiles_walkable()
    ensures
        walkable(left_start().0 as int, left_start().1 as int),
        walkable(right_start().0 as int, right_start().1 as int),
{
    assert(0b001110000000000000000000011100u32 & (1u32 << 26u32) != 0) by (bit_vector);
    assert(0b001110000000000000000000011100u32 & (1u32 << 2u32) != 0) by (bit_vector);
}

/// Every lane leads from the left base, through its waypoint, to the right
/// base, one step to a neighboring tile at a time, over walkable tiles only.
pub proof fn lane_routes_are_walks(m: TileMap, p: Path)
    requires
        m.wf(),
    ensures
        m.route(p) == lane_route(p),
        is_walk(lane_route(p), left_start(), right_start()),
        lane_route(p).contains(spec_waypoint(p)),
        forall|i: int|
            0 <= i < lane_route(p).len() ==> walkable(
                (#[trigger] lane_route(p)[i]).0 as int,
                lane_route(p)[i].1 as int,
            ),
{
    let first = astar_search(left_start(), spec_waypoint(p)).unwrap().0;
    let second = astar_search(spec_waypoint(p), right_start()).unwrap().0;
    assert(m.route(p) == lane_route(p) && lane_halves_are_routes(p));
    lemma_walk_concat(first, second, left_start(), spec_waypoint(p), right_start());
    starting_tiles_walkable();
    lemma_walk_walkable(lane_route(p), left_start(), right_start());
}

/// The move that undoes the `k`-th move.
pub open spec fn reverse_move(k: int) -> int {
    if k == 0 { 1 } else if k == 1 { 0 } else if k == 2 { 3 } else if k == 3 { 2 }
    else if k == 4 { 7 } else if k == 5 { 6 } else if k == 6 { 5 } else { 4 }
}

proof fn lemma_neighbors_upto_contains(p: Tile, n: nat, t: Tile)
    requires
        n <= 8,
    ensures
        neighbors_upto(p, n).contains(t) <==> exists|k: int|
            0 <= k < n && #[trigger] move_allowed(p, k) && t == (step_x(p, k) as u32, step_y(p, k) as u32),
    decreases n,
{
    if n > 0 {
        lemma_neighbors_upto_contains(p, (n - 1) as nat, t);
        let k = n - 1;
        let prev = neighbors_upto(p, (n - 1) as nat);
        if move_allowed(p, k) {
            let u: Tile = (step_x(p, k) as u32, step_y(p, k) as u32);
            assert(neighbors_upto(p, n) == prev.push(u));
            if neighbors_upto(p, n).contains(t) {
                let i = choose|i: int| 0 <= i < prev.push(u).len() && prev.push(u)[i] == t;
                if i < prev.len() {
                    assert(prev[i] == t);
                    assert(prev.contains(t));
                }
            }
            if exists|j: int| 0 <= j < n && #[trigger] move_allowed(p, j) && t == (step_x(p, j) as u32, step_y(p, j) as u32) {
                let j = choose|j: int| 0 <= j < n && #[trigger] move_allowed(p, j) && t == (step_x(p, j) as u32, step_y(p, j) as u32);
                if j < k {
                    let i = choose|i: int| 0 <= i < prev.len() && prev[i] == t;
                    assert(prev.push(u)[i] == t);
                } else {
                    assert(prev.push(u)[prev.len() as int] == t);
                }
            }
        } else {
            assert(neighbors_upto(p, n) == prev);
        }
    }
}

/// Steps between walkable tiles can always be taken back: when a unit on
/// a walkable tile can step to another tile, a unit there can step back.
pub proof fn neighbors_symmetric(p: Tile, q: Tile)
    requires
        walkable(p.0 as int, p.1 as int),
        neighbors(p).contains(q),
    ensures
        neighbors(q).contains(p),
{
    lemma_neighbors_upto_contains(p, 8, q);
    let k = choose|k: int| 0 <= k < 8 && #[trigger] move_allowed(p, k) && q == (step_x(p, k) as u32, step_y(p, k) as u32);
    let r = reverse_move(k);
    assert(in_map(step_x(p, k), step_y(p, k)));
    assert(q.0 as int == step_x(p, k) && q.1 as int == step_y(p, k));
    assert(signed(q.0) == q.0 && signed(q.1) == q.1);
    assert(signed(p.0) == p.0 && signed(p.1) == p.1);
    assert(step_x(q, r) == p.0 && step_y(q, r) == p.1);
    assert(move_allowed(q, r));
    assert(p == (step_x(q, r) as u32, step_y(q, r) as u32));
    lemma_neighbors_upto_contains(q, 8, p);
}


proof fn lemma_neighbor_step(p: Tile, t: Tile)
    requires
        in_map(p.0 as int, p.1 as int),
        neighbors(p).contains(t),
    ensures
        -1 <= t.0 - p.0 <= 1,
        in_map(t.0 as int, t.1 as int),
{
    lemma_neighbors_upto_contains(p, 8, t);
    let k = choose|k: int| 0 <= k < 8 && #[trigger] move_allowed(p, k) && t == (step_x(p, k) as u32, step_y(p, k) as u32);
    assert(in_map(step_x(p, k), step_y(p, k)));
    assert(signed(p.0) == p.0);
}

proof fn lemma_walk_spans(w: Seq<Tile>, s: Tile, e: Tile)
    requires
        is_walk(w, s, e),
        in_map(s.0 as int, s.1 as int),
    ensures
        w.len() >= (if e.0 >= s.0 { e.0 - s.0 } else { s.0 - e.0 }) + 1,
    decreases w.len(),
{
    if w.len() > 1 {
        let r = w.drop_first();
        let z: int = 0;
        assert(neighbors(w[z]).contains(w[z + 1]));
        lemma_neighbor_step(w[0], w[1]);
        assert forall|i: int| 0 <= i < r.len() - 1 implies neighbors(r[i]).contains(#[trigger] r[i + 1]) by {
            assert(r[i] == w[i + 1] && r[i + 1] == w[i + 2]);
            assert(neighbors(w[i + 1]).contains(w[(i + 1) + 1]));
        }
        assert(is_walk(r, w[1], e));
        lemma_walk_spans(r, w[1], e);
    }
}

/// The lanes are long: every lane of a well-formed map takes at least 25
/// tiles, since a step moves at most one tile sideways and the bases lie 24
/// tiles apart.
pub proof fn lanes_are_long(m: TileMap, p: Path)
    requires
        m.wf(),
    ensures
        m.route(p).len() >= 25,
{
    lane_routes_are_walks(m, p);
    lemma_walk_spans(lane_route(p), left_start(), right_start());
}

/// The tiles of a lane away from both bases: all but the first three and
/// the last three.
pub open spec fn lane_inner(p: Path) -> Seq<Tile> {
    lane_route(p).subrange(3, lane_route(p).len() - 3)
}

/// The inner tiles of a lane, each with the lane.
pub open spec fn tagged_inner(p: Path) -> Seq<(Path, Tile)> {
    lane_inner(p).map_values(|t: Tile| (p, t))
}

/// Where the swarm boosts can put their units: the inner tiles of the top,
/// middle and bottom lanes, in that order, each with its lane.
pub open spec fn spec_swarm_tiles() -> Seq<(Path, Tile)> {
    tagged_inner(Path::Top) + tagged_inner(Path::Mid) + tagged_inner(Path::Bot)
}

impl TileMap {
    fn push_inner(&self, p: Path, res: &mut Vec<(Path, Tile)>)
        requires
            self.wf(),
        ensures
            final(res)@ == old(res)@ + tagged_inner(p),
    {
        proof {
            lanes_are_long(*self, p);
        }
        let route = self.path(p);
        let end = route.len() - 3;
        let mut i: usize = 3;
        let ghost start = res@;
        while i < end
            invariant
                3 <= i <= end,
                end == route@.len() - 3,
                route@ == lane_route(p),
                res@ == start + tagged_inner(p).take(i - 3),
            decreases end - i,
        {
            res.push((p, route[i]));
            i = i + 1;
            assert(tagged_inner(p).take(i - 3) == tagged_inner(p).take(i - 4).push((p, route@[i - 1])));
        }
        assert(tagged_inner(p).take(end - 3) == tagged_inner(p));
    }

    /// Where the swarm boosts can put their units: the lane tiles away from
    /// both bases, each with its lane (see `spec_swarm_tiles`).
    pub fn swarm_tiles(&self) -> (res: Vec<(Path, Tile)>)
        requires
            self.wf(),
        ensures
            res@ == spec_swarm_tiles(),
    {
        let mut res: Vec<(Path, Tile)> = Vec::new();
        self.push_inner(Path::Top, &mut res);
        self.push_inner(Path::Mid, &mut res);
        self.push_inner(Path::Bot, &mut res);
        assert(res@ == spec_swarm_tiles());
        res
    }
}

/// The tiles a unit can step to from a tile on the map are exactly the
/// walkable tiles around it, one step away in each direction at most, and
/// a diagonal step only when both tiles at its corners are walkable too: a
/// unit never cuts the corner of a tile that cannot be walked on.
pub proof fn neighbors_are_the_allowed_steps(p: Tile, q: Tile)
    requires
        in_map(p.0 as int, p.1 as int),
    ensures
        neighbors(p).contains(q) <==> {
            &&& q != p
            &&& -1 <= q.0 - p.0 <= 1
            &&& -1 <= q.1 - p.1 <= 1
            &&& walkable(q.0 as int, q.1 as int)
            &&& (q.0 != p.0 && q.1 != p.1 ==> walkable(q.0 as int, p.1 as int) && walkable(
                p.0 as int,
                q.1 as int,
            ))
        },
{
    lemma_neighbors_upto_contains(p, 8, q);
    assert(signed(p.0) == p.0 && signed(p.1) == p.1);
    if neighbors(p).contains(q) {
        let k = choose|k: int| 0 <= k < 8 && #[trigger] move_allowed(p, k) && q == (step_x(p, k) as u32, step_y(p, k) as u32);
        assert(in_map(step_x(p, k), step_y(p, k)));
        assert(q.0 as int == step_x(p, k) && q.1 as int == step_y(p, k));
    }
    let dx = q.0 - p.0;
    let dy = q.1 - p.1;
    if q != p && -1 <= dx <= 1 && -1 <= dy <= 1 && walkable(q.0 as int, q.1 as int) && (q.0 != p.0 && q.1
        != p.1 ==> walkable(q.0 as int, p.1 as int) && walkable(p.0 as int, q.1 as int)) {
        let k: int = if dx == -1 && dy == 0 {
            0
        } else if dx == 1 && dy == 0 {
            1
        } else if dx == 0 && dy == -1 {
            2
        } else if dx == 0 && dy == 1 {
            3
        } else if dx == -1 && dy == -1 {
            4
        } else if dx == -1 && dy == 1 {
            5
        } else if dx == 1 && dy == -1 {
            6
        } else {
            7
        };
        assert(step_x(p, k) == q.0 && step_y(p, k) == q.1);
        assert(move_allowed(p, k));
        assert(q == (step_x(p, k) as u32, step_y(p, k) as u32));
    }
}

/// The order in which the search tries the steps from `p`: left, right,
/// up, down, then up-left, down-left, up-right and down-right.
pub open spec fn step_order(p: Tile, q: Tile) -> int {
    let dx = q.0 - p.0;
    let dy = q.1 - p.1;
    if dx == -1 && dy == 0 {
        0
    } else if dx == 1 && dy == 0 {
        1
    } else if dx == 0 && dy == -1 {
        2
    } else if dx == 0 && dy == 1 {
        3
    } else if dx == -1 && dy == -1 {
        4
    } else if dx == -1 && dy == 1 {
        5
    } else if dx == 1 && dy == -1 {
        6
    } else {
        7
    }
}

proof fn lemma_neighbors_upto_ordered(p: Tile, n: nat)
    requires
        in_map(p.0 as int, p.1 as int),
        n <= 8,
    ensures
        forall|i: int| 0 <= i < neighbors_upto(p, n).len() ==> step_order(p, #[trigger] neighbors_upto(p, n)[i]) < n,
        forall|i: int, j: int|
            0 <= i < j < neighbors_upto(p, n).len() ==> step_order(p, #[trigger] neighbors_upto(p, n)[i]) < step_order(
                p,
                #[trigger] neighbors_upto(p, n)[j],
            ),
    decreases n,
{
    if n > 0 {
        let k = n - 1;
        lemma_neighbors_upto_ordered(p, k as nat);
        let prev = neighbors_upto(p, k as nat);
        if move_allowed(p, k) {
            let u: Tile = (step_x(p, k) as u32, step_y(p, k) as u32);
            assert(signed(p.0) == p.0 && signed(p.1) == p.1);
            assert(in_map(step_x(p, k), step_y(p, k)));
            assert(step_order(p, u) == k);
            let s = neighbors_upto(p, n);
            assert(s == prev.push(u));
            assert forall|i: int| 0 <= i < s.len() implies step_order(p, #[trigger] s[i]) < n by {
                if i < prev.len() {
                    assert(s[i] == prev[i]);
                }
            }
            assert forall|i: int, j: int| 0 <= i < j < s.len() implies step_order(p, #[trigger] s[i]) < step_order(
                p,
                #[trigger] s[j],
            ) by {
                assert(s[i] == prev[i]);
                if j < prev.len() {
                    assert(s[j] == prev[j]);
                }
            }
        }
    }
}

/// The search tries the steps from a tile on the map in a fixed order:
/// left, right, up, down, then the diagonals up-left, down-left, up-right
/// and down-right, each allowed step once.
pub proof fn neighbors_in_step_order(p: Tile)
    requires
        in_map(p.0 as int, p.1 as int),
    ensures
        forall|i: int, j: int|
            0 <= i < j < neighbors(p).len() ==> step_order(p, #[trigger] neighbors(p)[i]) < step_order(
                p,
                #[trigger] neighbors(p)[j],
            ),
        neighbors(p).no_duplicates(),
{
    lemma_neighbors_upto_ordered(p, 8);
    assert forall|i: int, j: int| 0 <= i < neighbors(p).len() && 0 <= j < neighbors(p).len() && i != j implies neighbors(
        p,
    )[i] != neighbors(p)[j] by {
        if i < j {
            assert(step_order(p, neighbors(p)[i]) < step_order(p, neighbors(p)[j]));
        } else {
            assert(step_order(p, neighbors(p)[j]) < step_order(p, neighbors(p)[i]));
        }
    }
}

} // verus!
