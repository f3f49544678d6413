use overworld::grid::{
    is_blocked, player_encounter_checking, tile_occupancy_check, wall_collision_check, Pos,
    TILE_SIZE,
};

fn tile(tx: i32, ty: i32) -> Pos {
    Pos { x: tx * TILE_SIZE, y: ty * TILE_SIZE }
}

#[test]
fn adjacent_tile_is_not_blocked() {
    // One tile-width apart on an axis: no false positive on neighbours.
    assert!(!wall_collision_check(tile(0, 0), tile(1, 0)));
    assert!(!wall_collision_check(tile(0, 0), tile(-1, 0)));
    assert!(!wall_collision_check(tile(0, 0), tile(0, 1)));
    assert!(!wall_collision_check(tile(0, 0), tile(0, -1)));
}

#[test]
fn diagonal_neighbour_is_not_blocked() {
    assert!(!wall_collision_check(tile(0, 0), tile(1, 1)));
    assert!(!wall_collision_check(tile(0, 0), tile(-1, 1)));
    assert!(!wall_collision_check(tile(0, 0), tile(1, -1)));
    assert!(!wall_collision_check(tile(0, 0), tile(-1, -1)));
}

#[test]
fn same_position_is_blocked() {
    assert!(wall_collision_check(tile(0, 0), tile(0, 0)));
    assert!(wall_collision_check(tile(-3, 7), tile(-3, 7)));
}

#[test]
fn is_blocked_scans_the_whole_set() {
    let walls = vec![tile(1, 0), tile(0, 1), tile(5, 5)];
    assert!(is_blocked(tile(5, 5), &walls));
    assert!(!is_blocked(tile(0, 0), &walls));
    assert!(!is_blocked(tile(2, 2), &walls));
}

#[test]
fn empty_obstacle_set_blocks_nothing() {
    let walls: Vec<Pos> = Vec::new();
    assert!(!is_blocked(tile(0, 0), &walls));
    assert!(!is_blocked(tile(-9, 4), &walls));
}

#[test]
fn danger_matches_tile_occupancy() {
    assert!(tile_occupancy_check(tile(2, 2), tile(2, 2)));
    assert!(!tile_occupancy_check(tile(2, 2), tile(2, 3)));
    let zones = vec![tile(0, 0), tile(3, 3)];
    assert!(player_encounter_checking(tile(3, 3), &zones));
    assert!(!player_encounter_checking(tile(1, 1), &zones));
    let none: Vec<Pos> = Vec::new();
    assert!(!player_encounter_checking(tile(0, 0), &none));
}

#[test]
fn overlapping_wall_and_zone_both_apply() {
    // The wall set and the encounter set are evaluated independently: a tile
    // in both blocks motion and raises danger.
    let shared = vec![tile(1, 0)];
    assert!(is_blocked(tile(1, 0), &shared));
    assert!(player_encounter_checking(tile(1, 0), &shared));
}
