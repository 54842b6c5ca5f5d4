use vstd::prelude::*;

verus! {

/// The aiming state carried from frame to frame.
#[derive(Clone, Copy, Debug, PartialEq, Eq, Structural)]
pub struct AimState {
    /// Whether the crosshair dot is drawn (a setting: no frame changes it).
    pub crosshair_visible: bool,
    /// Whether the last ray cast from the camera gave a point to aim at.
    pub hit_something: bool,
}

/// What the engine reports at the start of an idle frame.
#[derive(Clone, Copy, Debug, PartialEq, Eq, Structural)]
pub struct AimInput {
    /// The crosshair node is available.
    pub crosshair_present: bool,
    /// The camera node is available, so a ray is cast through the crosshair.
    pub camera_present: bool,
    /// The crosshair sits at the horizontal edge of the deadzone.
    pub outside_x: bool,
    /// The mouse moved horizontally this frame.
    pub turning_x: bool,
    /// The crosshair sits at the vertical edge of the deadzone.
    pub outside_y: bool,
    /// The mouse moved vertically this frame.
    pub turning_y: bool,
}

/// What happens to the crosshair node.
#[derive(Clone, Copy, Debug, PartialEq, Eq, Structural)]
pub enum CrosshairStep {
    /// There is no crosshair node.
    Untouched,
    /// The dot is placed at the crosshair position and shown.
    Show,
    Hide,
}

/// Where the hands point.
#[derive(Clone, Copy, Debug, PartialEq, Eq, Structural)]
pub enum HandsAim {
    /// At the world point under the crosshair, at a reach taken from its distance.
    AtCrosshair,
    /// Straight along the camera's forward axis, at a fixed reach.
    StraightAhead,
}

/// The branches that an idle frame takes.
#[derive(Clone, Copy, Debug, PartialEq, Eq, Structural)]
pub struct AimPlan {
    pub crosshair: CrosshairStep,
    /// The body turns: the crosshair is pinned at the horizontal edge and the mouse still pushes.
    pub yaw_active: bool,
    /// The head pitches: the crosshair is pinned at the vertical edge and the mouse still pushes.
    pub pitch_active: bool,
    pub hands: HandsAim,
}

/// Whether there is a point to aim at after the frame: casting a ray always
/// yields one (the hit, or a virtual wall at the ray's far end).
pub open spec fn hit_after(hit_before: bool, camera_present: bool) -> bool {
    hit_before || camera_present
}

pub open spec fn crosshair_step_for(present: bool, visible: bool) -> CrosshairStep {
    if !present {
        CrosshairStep::Untouched
    } else if visible {
        CrosshairStep::Show
    } else {
        CrosshairStep::Hide
    }
}

impl AimState {
    /// The aiming state of a fresh character: crosshair shown, nothing aimed at yet.
    pub fn new() -> (s: AimState)
        ensures
            s.crosshair_visible,
            !s.hit_something,
    {
        AimState { crosshair_visible: true, hit_something: false }
    }

    /// Decides the branches of an idle frame and records whether there is now a
    /// point to aim at.
    pub fn plan_aim(&mut self, input: AimInput) -> (plan: AimPlan)
        ensures
            final(self).crosshair_visible == old(self).crosshair_visible,
            final(self).hit_something == hit_after(old(self).hit_something, input.camera_present),
            plan.crosshair == crosshair_step_for(input.crosshair_present, old(self).crosshair_visible),
            plan.yaw_active == (input.outside_x && input.turning_x),
            plan.pitch_active == (input.outside_y && input.turning_y),
            (plan.hands is AtCrosshair) <==> final(self).hit_something,
            (plan.hands is StraightAhead) <==> !final(self).hit_something,
            final(self).hit_something == (old(self).hit_something || input.camera_present),
            (plan.crosshair is Untouched) <==> !input.crosshair_present,
            (plan.crosshair is Show) <==> (input.crosshair_present && old(self).crosshair_visible),
            (plan.crosshair is Hide) <==> (input.crosshair_present && !old(self).crosshair_visible),
    {
        let crosshair = if input.crosshair_present {
            if self.crosshair_visible {
                CrosshairStep::Show
            } else {
                CrosshairStep::Hide
            }
        } else {
            CrosshairStep::Untouched
        };
        if input.camera_present {
            self.hit_something = true;
        }
        let hands = if self.hit_something {
            HandsAim::AtCrosshair
        } else {
            HandsAim::StraightAhead
        };
        AimPlan {
            crosshair,
            yaw_active: input.outside_x && input.turning_x,
            pitch_active: input.outside_y && input.turning_y,
            hands,
        }
    }
}

} // verus!
