use tinywar::map::{
    all_paths, find_path, get_neighbors, is_walkable, starting_positions, try_find_path, Path, TileMap,
};
use tinywar::movement::{closest_tile_on_path, get_target_tile, get_tiles_at_distance, try_get_target_tile};

#[test]
fn walkable_tiles_follow_the_grid() {
    assert!(is_walkable((3, 0)));
    assert!(is_walkable((27, 0)));
    assert!(!is_walkable((0, 0)));
    assert!(!is_walkable((5, 0)));
    assert!(is_walkable((14, 2)));
    assert!(is_walkable((14, 6)));
    assert!(is_walkable((14, 10)));
    assert!(!is_walkable((0, 15)));
}

#[test]
fn neighbors_of_a_corner_tile() {
    // Row 0 is walkable at x = 2, 3, 4; row 1 at x = 2..=8.
    let n = get_neighbors((3, 0));
    assert_eq!(n, vec![(2, 0), (4, 0), (3, 1), (2, 1), (4, 1)]);
}

#[test]
fn neighbors_skip_cut_corners() {
    // (2, 0) is walkable, (1, 0) and (1, 1) are not: no diagonal to the left.
    let n = get_neighbors((2, 0));
    assert_eq!(n, vec![(3, 0), (2, 1), (3, 1)]);
}

#[test]
fn neighbors_outside_the_map_are_empty() {
    assert_eq!(get_neighbors((100, 100)), vec![]);
}

#[test]
fn neighbors_are_symmetric_on_walkable_tiles() {
    for x in 0..30u32 {
        for y in 0..16u32 {
            if !is_walkable((x, y)) {
                continue;
            }
            for q in get_neighbors((x, y)) {
                assert!(get_neighbors(q).contains(&(x, y)));
            }
        }
    }
}

#[test]
fn find_path_walks_from_start_to_end() {
    let path = find_path((3, 0), (14, 2));
    assert_eq!(path[0], (3, 0));
    assert_eq!(*path.last().unwrap(), (14, 2));
    for w in path.windows(2) {
        assert!(get_neighbors(w[0]).contains(&w[1]));
    }
}

#[test]
fn find_path_to_itself_is_one_tile() {
    assert_eq!(find_path((3, 0), (3, 0)), vec![(3, 0)]);
}

#[test]
fn no_path_to_an_unwalkable_tile() {
    assert_eq!(try_find_path((3, 0), (0, 0)), None);
}

#[test]
fn lanes_connect_the_bases_through_their_waypoints() {
    let map = TileMap::try_new().expect("lanes");
    let starts = starting_positions();
    for p in all_paths() {
        let route = map.path(p);
        assert_eq!(route[0], starts[0]);
        assert_eq!(*route.last().unwrap(), starts[1]);
        assert!(route.contains(&p.waypoint()));
        for w in route.windows(2) {
            assert!(get_neighbors(w[0]).contains(&w[1]));
        }
        for t in &route {
            assert!(is_walkable(*t));
        }
    }
}

#[test]
fn waypoints_of_the_lanes() {
    assert_eq!(Path::Top.waypoint(), (14, 2));
    assert_eq!(Path::Mid.waypoint(), (14, 6));
    assert_eq!(Path::Bot.waypoint(), (14, 10));
}

#[test]
fn tiles_at_distance_form_a_square() {
    let tiles = get_tiles_at_distance((5, 5), 1);
    assert_eq!(tiles.len(), 9);
    for x in 4..=6 {
        for y in 4..=6 {
            assert!(tiles.contains(&(x, y)));
        }
    }
}

#[test]
fn tiles_at_distance_stop_at_zero() {
    let tiles = get_tiles_at_distance((0, 1), 2);
    assert_eq!(tiles.len(), 3 * 4);
    assert!(tiles.contains(&(0, 0)));
    assert!(tiles.contains(&(2, 3)));
    assert!(!tiles.contains(&(3, 3)));
}

#[test]
fn target_tile_is_the_next_step_towards_the_lane() {
    let map = TileMap::try_new().expect("lanes");
    let route = map.path(Path::Top);
    // Standing on the first tile of the lane, the unit heads for the next one.
    let t = get_target_tile(route[0], &route);
    assert!(get_neighbors(route[0]).contains(&t));
    assert_eq!(try_get_target_tile(route[0], &route), Some(t));
}

#[test]
fn no_target_at_the_end_of_the_lane() {
    let map = TileMap::try_new().expect("lanes");
    let route = map.path(Path::Mid);
    let last = *route.last().unwrap();
    assert_eq!(try_get_target_tile(last, &route), None);
}

#[test]
fn closest_tile_follows_the_nearest_one() {
    let path = vec![(3, 0), (4, 1), (5, 2), (6, 3)];
    assert_eq!(closest_tile_on_path((5, 1), &path), (5, 2));
    assert_eq!(closest_tile_on_path((0, 0), &path), (4, 1));
    assert_eq!(closest_tile_on_path((6, 3), &path), (6, 3));
    assert_eq!(closest_tile_on_path((9, 9), &path), (6, 3));
}
