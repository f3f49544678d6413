//! Movement controller: converts directional input into grid-snapped motion,
//! resolves it against the wall set, accumulates danger-exposed steps, and
//! requests a one-shot combat transition when the step counter passes its
//! threshold.

use vstd::prelude::*;
use crate::grid::{Pos, TILE_SIZE, is_blocked, spec_is_blocked};
use crate::player::Player;

verus! {

/// Which directional keys were newly pressed this tick.
#[derive(Clone, Copy, Debug, PartialEq, Eq, Structural)]
pub struct InputState {
    pub up: bool,
    pub down: bool,
    pub left: bool,
    pub right: bool,
}

/// Cardinal direction the player's visual representation should indicate,
/// derived from the last successful move.
#[derive(Clone, Copy, Debug, PartialEq, Eq, Structural)]
pub enum Facing {
    Up,
    Down,
    Left,
    Right,
}

/// The requested movement delta: one tile along the axis of the first
/// pressed key in priority order up, down, left, right; zero otherwise.
pub open spec fn spec_delta(input: InputState) -> (int, int) {
    if input.up {
        (0, TILE_SIZE as int)
    } else if input.down {
        (0, -(TILE_SIZE as int))
    } else if input.left {
        (-(TILE_SIZE as int), 0)
    } else if input.right {
        (TILE_SIZE as int, 0)
    } else {
        (0, 0)
    }
}

/// Whether any directional key was pressed, that is, the requested delta is
/// nonzero.
pub open spec fn has_move_input(input: InputState) -> bool {
    input.up || input.down || input.left || input.right
}

/// The facing after a committed move, matching the moved axis and sign;
/// `prev` when no key was pressed.
pub open spec fn facing_of_input(input: InputState, prev: Facing) -> Facing {
    if input.up {
        Facing::Up
    } else if input.down {
        Facing::Down
    } else if input.left {
        Facing::Left
    } else if input.right {
        Facing::Right
    } else {
        prev
    }
}

/// X coordinate of the requested target tile.
pub open spec fn target_x(pos: Pos, input: InputState) -> int {
    pos.x + spec_delta(input).0
}

/// Y coordinate of the requested target tile.
pub open spec fn target_y(pos: Pos, input: InputState) -> int {
    pos.y + spec_delta(input).1
}

/// Whether the requested target tile overlaps some wall.
pub open spec fn move_blocked(pos: Pos, input: InputState, walls: Seq<Pos>) -> bool {
    spec_is_blocked(target_x(pos, input), target_y(pos, input), walls)
}

/// Whether this tick attempts a move that the resolver allows: the player is
/// active, a key was pressed, and the target is free of walls.
pub open spec fn legal_move(p: Player, pos: Pos, input: InputState, walls: Seq<Pos>) -> bool {
    p.active && has_move_input(input) && !move_blocked(pos, input, walls)
}

/// The step counter after an allowed move, before the threshold check.
pub open spec fn steps_attempted(p: Player, danger: bool) -> int {
    if danger {
        p.step + 1
    } else {
        p.step as int
    }
}

/// Whether this tick fires the combat transition: an allowed move whose
/// step count passes the threshold.
pub open spec fn triggers_transition(
    p: Player,
    pos: Pos,
    input: InputState,
    danger: bool,
    walls: Seq<Pos>,
) -> bool {
    legal_move(p, pos, input, walls) && steps_attempted(p, danger) > p.max_steps
}

/// Whether this tick commits the position and facing update: an allowed
/// move that does not fire the transition.
pub open spec fn commits_move(
    p: Player,
    pos: Pos,
    input: InputState,
    danger: bool,
    walls: Seq<Pos>,
) -> bool {
    legal_move(p, pos, input, walls) && !triggers_transition(p, pos, input, danger, walls)
}

/// The step counter at the end of the tick: reset on trigger, incremented on
/// an allowed move under danger, unchanged otherwise.
pub open spec fn step_after_tick(
    p: Player,
    pos: Pos,
    input: InputState,
    danger: bool,
    walls: Seq<Pos>,
) -> int {
    if triggers_transition(p, pos, input, danger, walls) {
        0
    } else if legal_move(p, pos, input, walls) && danger {
        p.step + 1
    } else {
        p.step as int
    }
}

/// The active flag at the end of the tick: cleared by a trigger, otherwise
/// kept.
pub open spec fn active_after_tick(
    p: Player,
    pos: Pos,
    input: InputState,
    danger: bool,
    walls: Seq<Pos>,
) -> bool {
    p.active && !triggers_transition(p, pos, input, danger, walls)
}

/// X coordinate at the end of the tick: the target on a committed move,
/// unchanged otherwise.
pub open spec fn pos_x_after_tick(
    p: Player,
    pos: Pos,
    input: InputState,
    danger: bool,
    walls: Seq<Pos>,
) -> int {
    if commits_move(p, pos, input, danger, walls) {
        target_x(pos, input)
    } else {
        pos.x as int
    }
}

/// Y coordinate at the end of the tick.
pub open spec fn pos_y_after_tick(
    p: Player,
    pos: Pos,
    input: InputState,
    danger: bool,
    walls: Seq<Pos>,
) -> int {
    if commits_move(p, pos, input, danger, walls) {
        target_y(pos, input)
    } else {
        pos.y as int
    }
}

/// Facing at the end of the tick: follows the moved direction on a committed
/// move, unchanged otherwise.
pub open spec fn facing_after_tick(
    p: Player,
    pos: Pos,
    input: InputState,
    danger: bool,
    walls: Seq<Pos>,
    prev: Facing,
) -> Facing {
    if commits_move(p, pos, input, danger, walls) {
        facing_of_input(input, prev)
    } else {
        prev
    }
}

/// Positions from which one more tile of motion cannot leave the coordinate
/// range: a machine limit, not a rule of the overworld.
pub open spec fn in_world(p: Pos) -> bool {
    &&& i32::MIN <= p.x - TILE_SIZE
    &&& p.x + TILE_SIZE <= i32::MAX
    &&& i32::MIN <= p.y - TILE_SIZE
    &&& p.y + TILE_SIZE <= i32::MAX
}

/// Movement controller, one tick. Given this tick's danger signal and the
/// wall set, applies the requested move if legal, accumulates the step
/// counter under danger, and fires the one-shot combat transition when the
/// counter passes the threshold — consuming that tick's move. While
/// `active` is false, or with no input, the tick changes nothing.
pub fn player_movement(
    player: &mut Player,
    pos: &mut Pos,
    facing: &mut Facing,
    input: InputState,
    danger: bool,
    walls: &Vec<Pos>,
) -> (transition: bool)
    requires
        old(player).inv(),
        old(player).max_steps < u32::MAX,
        in_world(*old(pos)),
    ensures
        transition == triggers_transition(*old(player), *old(pos), input, danger, walls@),
        final(player).active == active_after_tick(
            *old(player),
            *old(pos),
            input,
            danger,
            walls@,
        ),
        final(player).step == step_after_tick(*old(player), *old(pos), input, danger, walls@),
        final(player).exp == old(player).exp,
        final(player).max_steps == old(player).max_steps,
        final(pos).x == pos_x_after_tick(*old(player), *old(pos), input, danger, walls@),
        final(pos).y == pos_y_after_tick(*old(player), *old(pos), input, danger, walls@),
        *final(facing) == facing_after_tick(
            *old(player),
            *old(pos),
            input,
            danger,
            walls@,
            *old(facing),
        ),
        final(player).inv(),
{
    if !player.active {
        return false;
    }
    let mut dx: i32 = 0;
    let mut dy: i32 = 0;
    if input.up {
        dy = TILE_SIZE;
    } else if input.down {
        dy = -TILE_SIZE;
    } else if input.left {
        dx = -TILE_SIZE;
    } else if input.right {
        dx = TILE_SIZE;
    }
    if dx == 0 && dy == 0 {
        return false;
    }
    let target = Pos { x: pos.x + dx, y: pos.y + dy };
    if is_blocked(target, walls) {
        return false;
    }
    if danger {
        player.step = player.step + 1;
    }
    if player.step > player.max_steps {
        player.active = false;
        player.step = 0;
        return true;
    }
    if dy > 0 {
        *facing = Facing::Up;
    } else if dy < 0 {
        *facing = Facing::Down;
    } else if dx > 0 {
        *facing = Facing::Right;
    } else {
        *facing = Facing::Left;
    }
    *pos = target;
    false
}

/// Law: a tick with no directional input changes nothing — the step counter,
/// the active flag, position and facing all keep their values, and no
/// transition fires — whatever the danger signal and the wall set.
pub proof fn lemma_no_input_changes_nothing(
    p: Player,
    pos: Pos,
    input: InputState,
    danger: bool,
    walls: Seq<Pos>,
    prev: Facing,
)
    requires
        !has_move_input(input),
    ensures
        !triggers_transition(p, pos, input, danger, walls),
        !commits_move(p, pos, input, danger, walls),
        step_after_tick(p, pos, input, danger, walls) == p.step,
        active_after_tick(p, pos, input, danger, walls) == p.active,
        pos_x_after_tick(p, pos, input, danger, walls) == pos.x,
        pos_y_after_tick(p, pos, input, danger, walls) == pos.y,
        facing_after_tick(p, pos, input, danger, walls, prev) == prev,
{
}

/// Law: the step counter only increases when the danger signal is true this
/// tick and the attempted move was allowed — and then by exactly one;
/// otherwise it is unchanged, except for the reset to zero on a threshold
/// trigger.
pub proof fn lemma_step_accumulation(
    p: Player,
    pos: Pos,
    input: InputState,
    danger: bool,
    walls: Seq<Pos>,
)
    requires
        p.inv(),
    ensures
        step_after_tick(p, pos, input, danger, walls) > p.step ==> danger && legal_move(
            p,
            pos,
            input,
            walls,
        ) && step_after_tick(p, pos, input, danger, walls) == p.step + 1,
        !(danger && legal_move(p, pos, input, walls)) ==> step_after_tick(
            p,
            pos,
            input,
            danger,
            walls,
        ) == p.step,
        triggers_transition(p, pos, input, danger, walls) ==> step_after_tick(
            p,
            pos,
            input,
            danger,
            walls,
        ) == 0,
{
}

/// Law: the threshold trigger is exactly one-shot. A trigger clears the
/// active flag and resets the step counter; while the player is inactive no
/// tick triggers, commits a move, or changes any field; and no tick ever
/// turns the active flag back on — only the external resume event does.
pub proof fn lemma_threshold_one_shot(
    p: Player,
    pos: Pos,
    input: InputState,
    danger: bool,
    walls: Seq<Pos>,
    prev: Facing,
)
    requires
        p.inv(),
    ensures
        triggers_transition(p, pos, input, danger, walls) ==> !active_after_tick(
            p,
            pos,
            input,
            danger,
            walls,
        ) && step_after_tick(p, pos, input, danger, walls) == 0,
        !p.active ==> !triggers_transition(p, pos, input, danger, walls) && !commits_move(
            p,
            pos,
            input,
            danger,
            walls,
        ) && step_after_tick(p, pos, input, danger, walls) == p.step && active_after_tick(
            p,
            pos,
            input,
            danger,
            walls,
        ) == p.active && pos_x_after_tick(p, pos, input, danger, walls) == pos.x
            && pos_y_after_tick(p, pos, input, danger, walls) == pos.y && facing_after_tick(
            p,
            pos,
            input,
            danger,
            walls,
            prev,
        ) == prev,
        active_after_tick(p, pos, input, danger, walls) ==> p.active,
{
}

/// Law: a move aimed at a tile occupied by some wall is rejected — position,
/// facing and step counter keep their values and no transition fires,
/// whatever the danger signal.
pub proof fn lemma_move_into_wall_rejected(
    p: Player,
    pos: Pos,
    input: InputState,
    danger: bool,
    walls: Seq<Pos>,
    prev: Facing,
    w: int,
)
    requires
        0 <= w < walls.len(),
        walls[w].x == target_x(pos, input),
        walls[w].y == target_y(pos, input),
    ensures
        !legal_move(p, pos, input, walls) || !has_move_input(input),
        !triggers_transition(p, pos, input, danger, walls),
        !commits_move(p, pos, input, danger, walls),
        step_after_tick(p, pos, input, danger, walls) == p.step,
        pos_x_after_tick(p, pos, input, danger, walls) == pos.x,
        pos_y_after_tick(p, pos, input, danger, walls) == pos.y,
        facing_after_tick(p, pos, input, danger, walls, prev) == prev,
{
    assert(crate::grid::blocked_at(target_x(pos, input), target_y(pos, input), walls[w]));
}

} // verus!
