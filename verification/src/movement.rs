use vstd::prelude::*;

verus! {

/// Which of the configured move speeds applies this frame.
#[derive(Clone, Copy, Debug, PartialEq, Eq, Structural)]
pub enum SpeedKind {
    Crouch,
    Sprint,
    Walk,
}

/// Which height scale the collision shape eases toward.
#[derive(Clone, Copy, Debug, PartialEq, Eq, Structural)]
pub enum HeightTarget {
    Crouched,
    Standing,
}

/// What happens to the vertical velocity this frame.
#[derive(Clone, Copy, Debug, PartialEq, Eq, Structural)]
pub enum VerticalStep {
    /// On the floor and jump was just pressed: the vertical velocity becomes the jump speed.
    Jump,
    /// On the floor without a jump: the vertical velocity is left as it is.
    Hold,
    /// In the air: gravity is applied.
    Fall,
}

/// What happens to the horizontal velocity this frame.
#[derive(Clone, Copy, Debug, PartialEq, Eq, Structural)]
pub enum HorizontalStep {
    /// There is move input: the velocity follows the input direction at this speed.
    Steer(SpeedKind),
    /// No move input: the horizontal velocity is damped.
    Brake,
}

/// What the head bob does this frame.
#[derive(Clone, Copy, Debug, PartialEq, Eq, Structural)]
pub enum HeadBob {
    /// Moving: the bob phase advances and the head eases toward the bobbed position.
    Advance,
    /// Standing still: the bob phase resets and the head eases back to its rest position.
    Settle,
}

/// Crouching after one frame. In toggle mode a press of the crouch action
/// flips the state and anything else keeps it; in hold mode the character
/// crouches exactly while the action is held.
pub open spec fn crouch_after(toggle_mode: bool, crouching: bool, pressed: bool, held: bool) -> bool {
    if toggle_mode {
        crouching != pressed
    } else {
        held
    }
}

pub fn next_crouching(toggle_mode: bool, crouching: bool, pressed: bool, held: bool) -> (r: bool)
    ensures
        r == crouch_after(toggle_mode, crouching, pressed, held),
        (toggle_mode && pressed) ==> r == !crouching,
        (toggle_mode && !pressed) ==> r == crouching,
        !toggle_mode ==> r == held,
{
    if toggle_mode {
        if pressed {
            !crouching
        } else {
            crouching
        }
    } else {
        held
    }
}

/// The height scale to ease toward: the crouch scale while crouching, the standing scale otherwise.
pub fn height_target(crouching: bool) -> (h: HeightTarget)
    ensures
        (h is Crouched) <==> crouching,
        (h is Standing) <==> !crouching,
{
    if crouching {
        HeightTarget::Crouched
    } else {
        HeightTarget::Standing
    }
}

/// Crouching overrides sprinting, sprinting overrides walking.
pub open spec fn speed_for(crouching: bool, sprint_held: bool) -> SpeedKind {
    if crouching {
        SpeedKind::Crouch
    } else if sprint_held {
        SpeedKind::Sprint
    } else {
        SpeedKind::Walk
    }
}

pub fn select_speed(crouching: bool, sprint_held: bool) -> (k: SpeedKind)
    ensures
        k == speed_for(crouching, sprint_held),
        (k is Crouch) <==> crouching,
        (k is Sprint) <==> (!crouching && sprint_held),
        (k is Walk) <==> (!crouching && !sprint_held),
{
    if crouching {
        SpeedKind::Crouch
    } else if sprint_held {
        SpeedKind::Sprint
    } else {
        SpeedKind::Walk
    }
}

/// A jump starts only from the floor; gravity acts only in the air.
pub fn vertical_step(on_floor: bool, jump_pressed: bool) -> (s: VerticalStep)
    ensures
        (s is Jump) <==> (on_floor && jump_pressed),
        (s is Hold) <==> (on_floor && !jump_pressed),
        (s is Fall) <==> !on_floor,
{
    if on_floor {
        if jump_pressed {
            VerticalStep::Jump
        } else {
            VerticalStep::Hold
        }
    } else {
        VerticalStep::Fall
    }
}

/// Whether the controller looks for a ledge after one frame: touching the floor
/// clears the search, a press of jump (on the floor or in the air) arms it,
/// and in the air without a press it stays as it was.
pub open spec fn ledge_search_after(looking: bool, on_floor: bool, jump_pressed: bool) -> bool {
    jump_pressed || (looking && !on_floor)
}

pub fn next_ledge_search(looking: bool, on_floor: bool, jump_pressed: bool) -> (r: bool)
    ensures
        r == ledge_search_after(looking, on_floor, jump_pressed),
        jump_pressed ==> r,
        (on_floor && !jump_pressed) ==> !r,
        (!on_floor && !jump_pressed) ==> r == looking,
{
    let mut r = looking;
    if on_floor {
        r = false;
    }
    if jump_pressed {
        r = true;
    }
    r
}

pub fn horizontal_step(has_move_input: bool, crouching: bool, sprint_held: bool) -> (s: HorizontalStep)
    ensures
        has_move_input ==> s == HorizontalStep::Steer(speed_for(crouching, sprint_held)),
        !has_move_input ==> s == HorizontalStep::Brake,
        (has_move_input && crouching) ==> s == HorizontalStep::Steer(SpeedKind::Crouch),
        (has_move_input && !crouching && sprint_held) ==> s == HorizontalStep::Steer(SpeedKind::Sprint),
        (has_move_input && !crouching && !sprint_held) ==> s == HorizontalStep::Steer(SpeedKind::Walk),
{
    let speed = select_speed(crouching, sprint_held);
    if has_move_input {
        HorizontalStep::Steer(speed)
    } else {
        HorizontalStep::Brake
    }
}

pub fn head_bob(moving: bool) -> (b: HeadBob)
    ensures
        (b is Advance) <==> moving,
        (b is Settle) <==> !moving,
{
    if moving {
        HeadBob::Advance
    } else {
        HeadBob::Settle
    }
}

} // verus!
