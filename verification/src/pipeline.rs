//! The per-tick pipeline and its surrounding stages: danger-zone detection
//! runs first on the pre-move position, the movement controller second, the
//! camera tracker last. The visibility gate brackets the pipeline across
//! scene pause and resume.

use vstd::prelude::*;
use crate::grid::{Pos, player_encounter_checking, spec_in_danger};
use crate::movement::{
    Facing,
    InputState,
    active_after_tick,
    facing_after_tick,
    in_world,
    player_movement,
    pos_x_after_tick,
    pos_y_after_tick,
    step_after_tick,
    triggers_transition,
};
use crate::player::Player;

verus! {

/// Camera tracker: re-center the viewpoint on the player's resolved
/// position, with no smoothing, lag or clamping.
pub fn camera_follow(camera: &mut Pos, player_pos: Pos)
    ensures
        *final(camera) == player_pos,
{
    camera.x = player_pos.x;
    camera.y = player_pos.y;
}

/// Visibility gate, pause half: hide the player and every attached child.
pub fn hide_player(player_visible: &mut bool, child_visible: &mut Vec<bool>)
    ensures
        *final(player_visible) == false,
        final(child_visible)@.len() == old(child_visible)@.len(),
        forall|i: int|
            0 <= i < final(child_visible)@.len() ==> final(child_visible)@[i] == false,
{
    *player_visible = false;
    let mut i: usize = 0;
    while i < child_visible.len()
        invariant
            i <= child_visible@.len(),
            child_visible@.len() == old(child_visible)@.len(),
            forall|j: int| 0 <= j < i ==> child_visible@[j] == false,
        decreases child_visible@.len() - i,
    {
        child_visible.set(i, false);
        i = i + 1;
    }
}

/// Visibility gate, resume half: show the player and every attached child
/// and re-activate the pipeline. This is the only place that can set
/// `active` back to true after a threshold trigger or a pause.
pub fn show_player(player: &mut Player, player_visible: &mut bool, child_visible: &mut Vec<bool>)
    ensures
        final(player).active == true,
        final(player).exp == old(player).exp,
        final(player).step == old(player).step,
        final(player).max_steps == old(player).max_steps,
        *final(player_visible) == true,
        final(child_visible)@.len() == old(child_visible)@.len(),
        forall|i: int| 0 <= i < final(child_visible)@.len() ==> final(child_visible)@[i] == true,
{
    player.active = true;
    *player_visible = true;
    let mut i: usize = 0;
    while i < child_visible.len()
        invariant
            i <= child_visible@.len(),
            child_visible@.len() == old(child_visible)@.len(),
            forall|j: int| 0 <= j < i ==> child_visible@[j] == true,
        decreases child_visible@.len() - i,
    {
        child_visible.set(i, true);
        i = i + 1;
    }
}

/// One overworld tick in the required stage order: the danger signal is
/// computed from the player's current (pre-move) position against the
/// encounter zones, the movement controller consumes it together with this
/// tick's input and the wall set, and the camera is then re-centered on the
/// resolved position. Returns whether this tick requested the combat
/// transition.
pub fn overworld_tick(
    player: &mut Player,
    pos: &mut Pos,
    facing: &mut Facing,
    camera: &mut Pos,
    input: InputState,
    walls: &Vec<Pos>,
    encounter_zones: &Vec<Pos>,
) -> (transition: bool)
    requires
        old(player).inv(),
        old(player).max_steps < u32::MAX,
        in_world(*old(pos)),
    ensures
        ({
            let danger = spec_in_danger(*old(pos), encounter_zones@);
            &&& transition == triggers_transition(
                *old(player),
                *old(pos),
                input,
                danger,
                walls@,
            )
            &&& final(player).active == active_after_tick(
                *old(player),
                *old(pos),
                input,
                danger,
                walls@,
            )
            &&& final(player).step == step_after_tick(
                *old(player),
                *old(pos),
                input,
                danger,
                walls@,
            )
            &&& final(player).exp == old(player).exp
            &&& final(player).max_steps == old(player).max_steps
            &&& final(pos).x == pos_x_after_tick(*old(player), *old(pos), input, danger, walls@)
            &&& final(pos).y == pos_y_after_tick(*old(player), *old(pos), input, danger, walls@)
            &&& *final(facing) == facing_after_tick(
                *old(player),
                *old(pos),
                input,
                danger,
                walls@,
                *old(facing),
            )
            &&& *final(camera) == *final(pos)
            &&& final(player).inv()
        }),
{
    let danger = player_encounter_checking(*pos, encounter_zones);
    let transition = player_movement(player, pos, facing, input, danger, walls);
    camera_follow(camera, *pos);
    transition
}

} // verus!
