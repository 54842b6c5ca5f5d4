use vstd::prelude::*;

use crate::aim::{crosshair_step_for, hit_after, AimState, CrosshairStep};
use crate::controller::{
    plan_for, state_after_climb, state_after_input, state_after_probe, MotionState, PhysicsInput,
};
use crate::mantle::{mantle_step_for, LedgeProbe, MantleStep};
use crate::movement::{HeadBob, HeightTarget, HorizontalStep, SpeedKind, VerticalStep};

verus! {

/// The whole state transition of one physics frame: the input, then the probe's
/// answer, then the climb.
pub open spec fn frame_after(s: MotionState, i: PhysicsInput, walkable_hit: bool, reached: bool) -> MotionState {
    let n = state_after_input(s, i);
    state_after_climb(state_after_probe(n, plan_for(s, i).ledge_probe, walkable_hit), reached)
}

/// In toggle mode, two frames in which crouch is pressed leave crouching as it
/// was, whatever else happens in those frames.
pub proof fn law_toggle_press_twice_restores(s: MotionState, i1: PhysicsInput, i2: PhysicsInput)
    requires
        s.crouch_toggle_mode,
        i1.crouch_pressed,
        i2.crouch_pressed,
    ensures
        state_after_input(state_after_input(s, i1), i2).is_crouching == s.is_crouching,
{
}

/// In toggle mode, a frame without a crouch press keeps crouching as it was.
pub proof fn law_toggle_without_press_keeps(s: MotionState, i: PhysicsInput)
    requires
        s.crouch_toggle_mode,
        !i.crouch_pressed,
    ensures
        state_after_input(s, i).is_crouching == s.is_crouching,
{
}

/// In hold mode, the character crouches after a frame exactly when crouch is
/// held, whatever it did before.
pub proof fn law_hold_mode_follows_button(s: MotionState, i: PhysicsInput)
    requires
        !s.crouch_toggle_mode,
    ensures
        state_after_input(s, i).is_crouching == i.crouch_held,
{
}

/// No frame changes the crouch mode.
pub proof fn law_crouch_mode_is_fixed(s: MotionState, i: PhysicsInput, walkable_hit: bool, reached: bool)
    ensures
        frame_after(s, i, walkable_hit, reached).crouch_toggle_mode == s.crouch_toggle_mode,
{
}

/// A crouching character eases toward the crouch height and, when it moves,
/// moves at crouch speed even with sprint held.
pub proof fn law_crouch_overrides_sprint(s: MotionState, i: PhysicsInput)
    requires
        state_after_input(s, i).is_crouching,
    ensures
        plan_for(s, i).height == HeightTarget::Crouched,
        i.has_move_input ==> plan_for(s, i).horizontal == HorizontalStep::Steer(SpeedKind::Crouch),
{
}

/// A jump starts only from the floor with jump pressed; gravity acts exactly in the air.
pub proof fn law_jump_only_from_floor(s: MotionState, i: PhysicsInput)
    ensures
        plan_for(s, i).vertical == VerticalStep::Jump <==> (i.on_floor && i.jump_pressed),
        plan_for(s, i).vertical == VerticalStep::Fall <==> !i.on_floor,
{
}

/// A jump press arms the ledge search (on the floor or in the air); touching the
/// floor without one disarms it; in the air without one it is kept.
pub proof fn law_ledge_search(s: MotionState, i: PhysicsInput)
    ensures
        i.jump_pressed ==> state_after_input(s, i).look_for_ledge,
        (i.on_floor && !i.jump_pressed) ==> !state_after_input(s, i).look_for_ledge,
        (!i.on_floor && !i.jump_pressed) ==> state_after_input(s, i).look_for_ledge == s.look_for_ledge,
{
}

/// A mantling character does not probe, so no new mantle begins while one is
/// under way: the frame continues the climb.
pub proof fn law_no_probe_while_mantling(s: MotionState, i: PhysicsInput, walkable_hit: bool)
    requires
        s.is_mantling,
    ensures
        plan_for(s, i).ledge_probe == LedgeProbe::Skip,
        mantle_step_for(s.is_mantling, plan_for(s, i).ledge_probe, walkable_hit) == MantleStep::Continue,
{
}

/// A mantle begins only in a frame that searches for a ledge, from a character
/// that was not mantling, and only on a walkable hit.
pub proof fn law_mantle_begins_only_on_search(s: MotionState, i: PhysicsInput, walkable_hit: bool)
    requires
        mantle_step_for(s.is_mantling, plan_for(s, i).ledge_probe, walkable_hit) == MantleStep::Begin,
    ensures
        !s.is_mantling,
        state_after_input(s, i).look_for_ledge,
        walkable_hit,
{
}

/// A mantle that begins and then reaches its end leaves the character as it was
/// after the frame's input: not mantling, with crouching and the ledge search kept.
pub proof fn law_mantle_round_trip(s: MotionState, probe: LedgeProbe)
    requires
        !s.is_mantling,
        probe != LedgeProbe::Skip,
    ensures
        mantle_step_for(s.is_mantling, probe, true) == MantleStep::Begin,
        state_after_probe(s, probe, true).is_mantling,
        state_after_climb(state_after_probe(s, probe, true), true) == s,
{
}

/// A climb that has not reached its end keeps the character mantling, and a
/// character that is not mantling is not put into a mantle by the climb step.
pub proof fn law_climb_only_ends(s: MotionState, reached: bool)
    ensures
        (s.is_mantling && !reached) ==> state_after_climb(s, reached).is_mantling,
        !s.is_mantling ==> state_after_climb(s, reached) == s,
{
}

/// Once there is a point to aim at, there always is; a frame with a camera
/// always gives one; the crosshair is shown exactly when it is present and visible.
pub proof fn law_aim(s: AimState, camera_present: bool, crosshair_present: bool)
    ensures
        s.hit_something ==> hit_after(s.hit_something, camera_present),
        camera_present ==> hit_after(s.hit_something, camera_present),
        (!s.hit_something && !camera_present) ==> !hit_after(s.hit_something, camera_present),
        (crosshair_step_for(crosshair_present, s.crosshair_visible) == CrosshairStep::Show)
            <==> (crosshair_present && s.crosshair_visible),
        (crosshair_step_for(crosshair_present, s.crosshair_visible) == CrosshairStep::Hide)
            <==> (crosshair_present && !s.crosshair_visible),
        (crosshair_step_for(crosshair_present, s.crosshair_visible) == CrosshairStep::Untouched)
            <==> !crosshair_present,
{
}

/// Crouching after a frame: in toggle mode a press flips it and no press keeps
/// it; in hold mode it is whether crouch is held.
pub proof fn law_crouch_rules(s: MotionState, i: PhysicsInput)
    ensures
        (s.crouch_toggle_mode && i.crouch_pressed) ==> state_after_input(s, i).is_crouching == !s.is_crouching,
        (s.crouch_toggle_mode && !i.crouch_pressed) ==> state_after_input(s, i).is_crouching == s.is_crouching,
        !s.crouch_toggle_mode ==> state_after_input(s, i).is_crouching == i.crouch_held,
        state_after_input(s, i).is_mantling == s.is_mantling,
{
}

/// The head bobs exactly while the character moves; nothing else in the frame matters.
pub proof fn law_head_bob_follows_motion(s: MotionState, i: PhysicsInput)
    ensures
        (plan_for(s, i).head_bob == HeadBob::Advance) <==> i.moving,
        (plan_for(s, i).head_bob == HeadBob::Settle) <==> !i.moving,
{
}

/// The collision shape eases to the crouch height exactly when the character is
/// crouching after the frame's input, and to the standing height otherwise.
pub proof fn law_height_follows_crouch(s: MotionState, i: PhysicsInput)
    ensures
        (plan_for(s, i).height == HeightTarget::Crouched) <==> state_after_input(s, i).is_crouching,
        (plan_for(s, i).height == HeightTarget::Standing) <==> !state_after_input(s, i).is_crouching,
{
}

/// Without move input the character brakes; with it, a crouching character
/// steers at crouch speed, and a standing one at sprint speed exactly when
/// sprint is held and at walk speed otherwise.
pub proof fn law_speed_selection(s: MotionState, i: PhysicsInput)
    ensures
        !i.has_move_input ==> plan_for(s, i).horizontal == HorizontalStep::Brake,
        (i.has_move_input && state_after_input(s, i).is_crouching)
            ==> plan_for(s, i).horizontal == HorizontalStep::Steer(SpeedKind::Crouch),
        (i.has_move_input && !state_after_input(s, i).is_crouching && i.sprint_held)
            ==> plan_for(s, i).horizontal == HorizontalStep::Steer(SpeedKind::Sprint),
        (i.has_move_input && !state_after_input(s, i).is_crouching && !i.sprint_held)
            ==> plan_for(s, i).horizontal == HorizontalStep::Steer(SpeedKind::Walk),
{
}

/// The ledge is probed exactly when the frame searches for one and the
/// character is not mantling; the probe uses the shortened ray exactly when the
/// character is crouching after the frame's input.
pub proof fn law_ledge_probe(s: MotionState, i: PhysicsInput)
    ensures
        (plan_for(s, i).ledge_probe == LedgeProbe::Skip)
            <==> (!state_after_input(s, i).look_for_ledge || s.is_mantling),
        plan_for(s, i).ledge_probe != LedgeProbe::Skip
            ==> ((plan_for(s, i).ledge_probe == LedgeProbe::Short) <==> state_after_input(s, i).is_crouching),
{
}

/// A mantle begins exactly on a probe that hit a walkable ledge; otherwise a
/// mantling character continues its climb and any other character moves freely.
/// In particular a character that is not mantling and found no ledge is free,
/// whatever the probe was.
pub proof fn law_mantle_step_cases(mantling: bool, probe: LedgeProbe, walkable_hit: bool)
    ensures
        (mantle_step_for(mantling, probe, walkable_hit) == MantleStep::Begin)
            <==> (probe != LedgeProbe::Skip && walkable_hit),
        (mantle_step_for(mantling, probe, walkable_hit) == MantleStep::Continue)
            <==> (mantling && (probe == LedgeProbe::Skip || !walkable_hit)),
        (mantle_step_for(mantling, probe, walkable_hit) == MantleStep::Free)
            <==> (!mantling && (probe == LedgeProbe::Skip || !walkable_hit)),
        mantle_step_for(false, probe, false) == MantleStep::Free,
{
}

} // verus!
