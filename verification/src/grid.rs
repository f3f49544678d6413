//! Grid collision resolver and danger-zone detector.
//!
//! Every world position of the player and of every collider is an integer
//! multiple of `TILE_SIZE` along each axis. Collision is an axis-aligned
//! box-overlap test: the mover's box is shrunk to nine tenths of a tile so
//! that standing exactly one tile away from an obstacle (including diagonal
//! neighbours) never counts as an overlap, while standing on the obstacle's
//! tile always does. Danger detection uses the full-size box: the player is
//! in danger exactly when its tile coincides with an encounter-zone tile.

use vstd::prelude::*;

verus! {

/// Edge length of one grid cell, in world units.
pub const TILE_SIZE: i32 = 32;

/// A world-space position. The spatial invariant of the overworld is that
/// the player and every collider sit at integer multiples of `TILE_SIZE`.
#[derive(Clone, Copy, Debug, PartialEq, Eq, Structural)]
pub struct Pos {
    pub x: i32,
    pub y: i32,
}

/// Absolute value, for axis distances in specifications.
pub open spec fn abs_i(a: int) -> int {
    if a < 0 {
        -a
    } else {
        a
    }
}

/// Whether a mover box of edge `0.9 * TILE_SIZE` centered at `(cx, cy)`
/// overlaps an obstacle box of edge `TILE_SIZE` centered at `obstacle`.
/// Two centered boxes overlap exactly when the center distance on each axis
/// is below half the sum of their edges, here `0.95 * TILE_SIZE`; scaling by
/// 20 keeps the comparison in integers.
pub open spec fn blocked_at(cx: int, cy: int, obstacle: Pos) -> bool {
    &&& 20 * abs_i(cx - obstacle.x) < 19 * TILE_SIZE
    &&& 20 * abs_i(cy - obstacle.y) < 19 * TILE_SIZE
}

/// Whether the mover's shrunk box at `candidate` overlaps the obstacle's
/// full-size box.
pub open spec fn blocked_by(candidate: Pos, obstacle: Pos) -> bool {
    blocked_at(candidate.x as int, candidate.y as int, obstacle)
}

/// Whether a candidate center `(cx, cy)` is blocked by any obstacle of the set.
pub open spec fn spec_is_blocked(cx: int, cy: int, obstacles: Seq<Pos>) -> bool {
    exists|i: int| 0 <= i < obstacles.len() && blocked_at(cx, cy, obstacles[i])
}

/// Whether two full-size tile boxes centered at `p` and `z` overlap: on grid
/// positions, whether `p` and `z` are the same tile.
pub open spec fn shares_tile(p: Pos, z: Pos) -> bool {
    &&& abs_i(p.x - z.x) < TILE_SIZE
    &&& abs_i(p.y - z.y) < TILE_SIZE
}

/// Whether the player at `p` stands in at least one encounter zone.
pub open spec fn spec_in_danger(p: Pos, zones: Seq<Pos>) -> bool {
    exists|i: int| 0 <= i < zones.len() && shares_tile(p, zones[i])
}

/// Overlap test between the mover's shrunk hitbox at `target_player_pos` and
/// one wall tile's full box at `wall_translation`.
pub fn wall_collision_check(target_player_pos: Pos, wall_translation: Pos) -> (r: bool)
    ensures
        r == blocked_by(target_player_pos, wall_translation),
{
    let dx: i64 = (target_player_pos.x as i64) - (wall_translation.x as i64);
    let dy: i64 = (target_player_pos.y as i64) - (wall_translation.y as i64);
    let ax: i64 = if dx < 0 {
        -dx
    } else {
        dx
    };
    let ay: i64 = if dy < 0 {
        -dy
    } else {
        dy
    };
    20 * ax < 19 * (TILE_SIZE as i64) && 20 * ay < 19 * (TILE_SIZE as i64)
}

/// Grid collision resolver: true when the move to `candidate` is illegal,
/// that is, when the shrunk mover box overlaps any obstacle's box.
pub fn is_blocked(candidate: Pos, obstacles: &Vec<Pos>) -> (r: bool)
    ensures
        r == spec_is_blocked(candidate.x as int, candidate.y as int, obstacles@),
{
    let mut i: usize = 0;
    while i < obstacles.len()
        invariant
            i <= obstacles@.len(),
            forall|j: int| 0 <= j < i ==> !blocked_by(candidate, obstacles@[j]),
        decreases obstacles@.len() - i,
    {
        if wall_collision_check(candidate, obstacles[i]) {
            return true;
        }
        i = i + 1;
    }
    false
}

/// Full-size tile-occupancy test between the player and one encounter-zone
/// tile.
pub fn tile_occupancy_check(p: Pos, z: Pos) -> (r: bool)
    ensures
        r == shares_tile(p, z),
{
    let dx: i64 = (p.x as i64) - (z.x as i64);
    let dy: i64 = (p.y as i64) - (z.y as i64);
    let ax: i64 = if dx < 0 {
        -dx
    } else {
        dx
    };
    let ay: i64 = if dy < 0 {
        -dy
    } else {
        dy
    };
    ax < (TILE_SIZE as i64) && ay < (TILE_SIZE as i64)
}

/// Danger-zone detector: emits this tick's danger signal from the player's
/// current (pre-move) position, true exactly when the player's tile coincides
/// with at least one encounter-zone tile.
pub fn player_encounter_checking(player: Pos, encounter_zones: &Vec<Pos>) -> (r: bool)
    ensures
        r == spec_in_danger(player, encounter_zones@),
{
    let mut i: usize = 0;
    while i < encounter_zones.len()
        invariant
            i <= encounter_zones@.len(),
            forall|j: int| 0 <= j < i ==> !shares_tile(player, encounter_zones@[j]),
        decreases encounter_zones@.len() - i,
    {
        if tile_occupancy_check(player, encounter_zones[i]) {
            return true;
        }
        i = i + 1;
    }
    false
}

/// Law: a candidate exactly one tile-width away from an obstacle on some axis
/// is not blocked by it — adjacent (including diagonal) tiles never collide.
pub proof fn lemma_adjacent_tile_not_blocked(candidate: Pos, obstacle: Pos)
    requires
        abs_i(candidate.x - obstacle.x) == TILE_SIZE || abs_i(candidate.y - obstacle.y)
            == TILE_SIZE,
    ensures
        !blocked_by(candidate, obstacle),
{
}

/// Law: against an obstacle set whose every member lies a full tile away from
/// the candidate on some axis, the resolver reports no block at all.
pub proof fn lemma_adjacent_obstacles_do_not_block(candidate: Pos, obstacles: Seq<Pos>)
    requires
        forall|j: int|
            0 <= j < obstacles.len() ==> abs_i(candidate.x - obstacles[j].x) == TILE_SIZE || abs_i(
                candidate.y - obstacles[j].y,
            ) == TILE_SIZE,
    ensures
        !spec_is_blocked(candidate.x as int, candidate.y as int, obstacles),
{
}

/// Whether a position sits on the grid: both coordinates are integer
/// multiples of `TILE_SIZE`.
pub open spec fn on_grid(p: Pos) -> bool {
    &&& p.x % TILE_SIZE == 0
    &&& p.y % TILE_SIZE == 0
}

/// Two distinct multiples of `TILE_SIZE` lie at least one tile apart.
proof fn lemma_grid_axis_gap(a: int, b: int)
    requires
        a % (TILE_SIZE as int) == 0,
        b % (TILE_SIZE as int) == 0,
        a != b,
    ensures
        abs_i(a - b) >= TILE_SIZE,
{
    vstd::arithmetic::div_mod::lemma_fundamental_div_mod(a, TILE_SIZE as int);
    vstd::arithmetic::div_mod::lemma_fundamental_div_mod(b, TILE_SIZE as int);
    let qa = a / (TILE_SIZE as int);
    let qb = b / (TILE_SIZE as int);
    assert(a - b == (TILE_SIZE as int) * (qa - qb)) by (nonlinear_arith)
        requires
            a == (TILE_SIZE as int) * qa,
            b == (TILE_SIZE as int) * qb,
    ;
    assert(abs_i((TILE_SIZE as int) * (qa - qb)) >= TILE_SIZE) by (nonlinear_arith)
        requires
            qa != qb,
    ;
}

/// Law: between grid-snapped positions, both the shrunk-box collision test
/// and the full-box occupancy test are exact tile identity — the resolver
/// blocks a grid candidate precisely on the obstacle's own tile, and danger
/// is raised precisely on an encounter zone's own tile.
pub proof fn lemma_grid_overlap_is_tile_identity(p: Pos, q: Pos)
    requires
        on_grid(p),
        on_grid(q),
    ensures
        blocked_by(p, q) <==> p == q,
        shares_tile(p, q) <==> p == q,
{
    if p.x != q.x {
        lemma_grid_axis_gap(p.x as int, q.x as int);
    }
    if p.y != q.y {
        lemma_grid_axis_gap(p.y as int, q.y as int);
    }
}

/// Law: a candidate position equal to some obstacle's position is blocked.
pub proof fn lemma_obstacle_at_position_blocks(candidate: Pos, obstacles: Seq<Pos>, j: int)
    requires
        0 <= j < obstacles.len(),
        obstacles[j] == candidate,
    ensures
        spec_is_blocked(candidate.x as int, candidate.y as int, obstacles),
{
    assert(blocked_at(candidate.x as int, candidate.y as int, obstacles[j]));
}

} // verus!
