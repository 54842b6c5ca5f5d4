use vstd::prelude::*;

use crate::mantle::{ledge_probe, mantle_step, mantle_step_for, probe_for, LedgeProbe, MantleStep};
use crate::movement::{
    crouch_after, head_bob, height_target, horizontal_step, ledge_search_after,
    next_crouching, next_ledge_search, speed_for, vertical_step, HeadBob, HeightTarget,
    HorizontalStep, SpeedKind, VerticalStep,
};

verus! {

/// The boolean state that the character controller carries from frame to frame.
#[derive(Clone, Copy, Debug, PartialEq, Eq, Structural)]
pub struct MotionState {
    /// Crouch is toggled by presses (`true`) or held (`false`).
    pub crouch_toggle_mode: bool,
    pub is_crouching: bool,
    /// Armed by a jump, cleared on touching the floor: the climb ray probes while it is set.
    pub look_for_ledge: bool,
    pub is_mantling: bool,
}

/// What the engine reports at the start of a physics frame.
#[derive(Clone, Copy, Debug, PartialEq, Eq, Structural)]
pub struct PhysicsInput {
    pub on_floor: bool,
    /// The jump action was pressed this frame.
    pub jump_pressed: bool,
    /// The crouch action was pressed this frame.
    pub crouch_pressed: bool,
    /// The crouch action is held down.
    pub crouch_held: bool,
    pub sprint_held: bool,
    /// The move input vector is not zero.
    pub has_move_input: bool,
    /// The horizontal speed is above the head-bob threshold.
    pub moving: bool,
}

/// The branches that a physics frame takes before the ledge probe answers.
#[derive(Clone, Copy, Debug, PartialEq, Eq, Structural)]
pub struct PhysicsPlan {
    pub head_bob: HeadBob,
    pub vertical: VerticalStep,
    pub height: HeightTarget,
    pub horizontal: HorizontalStep,
    pub ledge_probe: LedgeProbe,
}

/// The state after the first half of a physics frame: crouching and the ledge
/// search are updated, the toggle mode and the mantle are untouched.
pub open spec fn state_after_input(s: MotionState, i: PhysicsInput) -> MotionState {
    MotionState {
        crouch_toggle_mode: s.crouch_toggle_mode,
        is_crouching: crouch_after(s.crouch_toggle_mode, s.is_crouching, i.crouch_pressed, i.crouch_held),
        look_for_ledge: ledge_search_after(s.look_for_ledge, i.on_floor, i.jump_pressed),
        is_mantling: s.is_mantling,
    }
}

/// The branches of the first half of a physics frame, taken from the state
/// before the frame and the frame's input.
pub open spec fn plan_for(s: MotionState, i: PhysicsInput) -> PhysicsPlan {
    let n = state_after_input(s, i);
    PhysicsPlan {
        head_bob: if i.moving { HeadBob::Advance } else { HeadBob::Settle },
        vertical: if !i.on_floor {
            VerticalStep::Fall
        } else if i.jump_pressed {
            VerticalStep::Jump
        } else {
            VerticalStep::Hold
        },
        height: if n.is_crouching { HeightTarget::Crouched } else { HeightTarget::Standing },
        horizontal: if i.has_move_input {
            HorizontalStep::Steer(speed_for(n.is_crouching, i.sprint_held))
        } else {
            HorizontalStep::Brake
        },
        ledge_probe: probe_for(n.look_for_ledge, n.is_mantling, n.is_crouching),
    }
}

/// The state once the probe has answered: a mantle that begins sets the flag.
pub open spec fn state_after_probe(s: MotionState, probe: LedgeProbe, walkable_hit: bool) -> MotionState {
    MotionState {
        is_mantling: s.is_mantling || mantle_step_for(s.is_mantling, probe, walkable_hit) is Begin,
        ..s
    }
}

/// The state once the climb has advanced: reaching the end clears the flag.
pub open spec fn state_after_climb(s: MotionState, reached: bool) -> MotionState {
    MotionState { is_mantling: s.is_mantling && !reached, ..s }
}

impl MotionState {
    /// The state of a freshly created character: standing, crouch in toggle
    /// mode, not searching for a ledge, not mantling.
    pub fn new() -> (s: MotionState)
        ensures
            s.crouch_toggle_mode,
            !s.is_crouching,
            !s.look_for_ledge,
            !s.is_mantling,
    {
        MotionState {
            crouch_toggle_mode: true,
            is_crouching: false,
            look_for_ledge: false,
            is_mantling: false,
        }
    }

    /// First half of a physics frame: reads the frame's input, updates crouching
    /// and the ledge search, and says which branch each part of the frame takes
    /// up to the ledge probe.
    pub fn plan_physics(&mut self, input: PhysicsInput) -> (plan: PhysicsPlan)
        ensures
            *final(self) == state_after_input(*old(self), input),
            plan == plan_for(*old(self), input),
            final(self).crouch_toggle_mode == old(self).crouch_toggle_mode,
            final(self).is_mantling == old(self).is_mantling,
            (old(self).crouch_toggle_mode && input.crouch_pressed) ==> final(self).is_crouching == !old(self).is_crouching,
            (old(self).crouch_toggle_mode && !input.crouch_pressed) ==> final(self).is_crouching == old(self).is_crouching,
            !old(self).crouch_toggle_mode ==> final(self).is_crouching == input.crouch_held,
            input.jump_pressed ==> final(self).look_for_ledge,
            (input.on_floor && !input.jump_pressed) ==> !final(self).look_for_ledge,
            (!input.on_floor && !input.jump_pressed) ==> final(self).look_for_ledge == old(self).look_for_ledge,
            (plan.head_bob is Advance) <==> input.moving,
            (plan.head_bob is Settle) <==> !input.moving,
            (plan.vertical is Jump) <==> (input.on_floor && input.jump_pressed),
            (plan.vertical is Hold) <==> (input.on_floor && !input.jump_pressed),
            (plan.vertical is Fall) <==> !input.on_floor,
            (plan.height is Crouched) <==> final(self).is_crouching,
            (plan.height is Standing) <==> !final(self).is_crouching,
            !input.has_move_input ==> plan.horizontal == HorizontalStep::Brake,
            (input.has_move_input && final(self).is_crouching)
                ==> plan.horizontal == HorizontalStep::Steer(SpeedKind::Crouch),
            (input.has_move_input && !final(self).is_crouching && input.sprint_held)
                ==> plan.horizontal == HorizontalStep::Steer(SpeedKind::Sprint),
            (input.has_move_input && !final(self).is_crouching && !input.sprint_held)
                ==> plan.horizontal == HorizontalStep::Steer(SpeedKind::Walk),
            (plan.ledge_probe is Skip) <==> (!final(self).look_for_ledge || old(self).is_mantling),
            (plan.ledge_probe is Short) <==> (final(self).look_for_ledge && !old(self).is_mantling && final(self).is_crouching),
            (plan.ledge_probe is Full) <==> (final(self).look_for_ledge && !old(self).is_mantling && !final(self).is_crouching),
    {
        let bob = head_bob(input.moving);
        let vertical = vertical_step(input.on_floor, input.jump_pressed);
        self.look_for_ledge = next_ledge_search(self.look_for_ledge, input.on_floor, input.jump_pressed);
        self.is_crouching = next_crouching(
            self.crouch_toggle_mode,
            self.is_crouching,
            input.crouch_pressed,
            input.crouch_held,
        );
        let height = height_target(self.is_crouching);
        let horizontal = horizontal_step(input.has_move_input, self.is_crouching, input.sprint_held);
        let probe = ledge_probe(self.look_for_ledge, self.is_mantling, self.is_crouching);
        PhysicsPlan { head_bob: bob, vertical, height, horizontal, ledge_probe: probe }
    }

    /// Second half of a physics frame, once the probe has answered:
    /// `walkable_hit` is whether the probe ran and hit a surface flat enough to
    /// stand on. A hit starts a mantle; the returned step says what the mantle
    /// does this frame.
    pub fn resolve_mantle(&mut self, probe: LedgeProbe, walkable_hit: bool) -> (step: MantleStep)
        ensures
            step == mantle_step_for(old(self).is_mantling, probe, walkable_hit),
            *final(self) == state_after_probe(*old(self), probe, walkable_hit),
            (step is Begin) <==> (!(probe is Skip) && walkable_hit),
            (step is Continue) <==> (old(self).is_mantling && ((probe is Skip) || !walkable_hit)),
            (step is Free) <==> (!old(self).is_mantling && ((probe is Skip) || !walkable_hit)),
            final(self).is_mantling == (old(self).is_mantling || (!(probe is Skip) && walkable_hit)),
            final(self).crouch_toggle_mode == old(self).crouch_toggle_mode,
            final(self).is_crouching == old(self).is_crouching,
            final(self).look_for_ledge == old(self).look_for_ledge,
    {
        let step = mantle_step(self.is_mantling, probe, walkable_hit);
        if let MantleStep::Begin = step {
            self.is_mantling = true;
        }
        step
    }

    /// Ends the mantle when the climb has reached its end (`reached`: the
    /// progress has come to one). Returns whether a mantle ended, in which case
    /// collision is to be restored.
    pub fn finish_mantle(&mut self, reached: bool) -> (ended: bool)
        ensures
            ended == (old(self).is_mantling && reached),
            *final(self) == state_after_climb(*old(self), reached),
            final(self).is_mantling == (old(self).is_mantling && !reached),
            final(self).crouch_toggle_mode == old(self).crouch_toggle_mode,
            final(self).is_crouching == old(self).is_crouching,
            final(self).look_for_ledge == old(self).look_for_ledge,
    {
        if self.is_mantling && reached {
            self.is_mantling = false;
            true
        } else {
            false
        }
    }
}

} // verus!
