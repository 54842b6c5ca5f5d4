use wss_fps::controller::{MotionState, PhysicsInput};
use wss_fps::mantle::{ledge_probe, mantle_step, LedgeProbe, MantleStep};
use wss_fps::movement::{HeadBob, HeightTarget, HorizontalStep, SpeedKind, VerticalStep};

fn idle_input() -> PhysicsInput {
    PhysicsInput {
        on_floor: true,
        jump_pressed: false,
        crouch_pressed: false,
        crouch_held: false,
        sprint_held: false,
        has_move_input: false,
        moving: false,
    }
}

#[test]
fn fresh_state() {
    let s = MotionState::new();
    assert!(s.crouch_toggle_mode);
    assert!(!s.is_crouching);
    assert!(!s.look_for_ledge);
    assert!(!s.is_mantling);
}

#[test]
fn idle_frame_on_floor() {
    let mut s = MotionState::new();
    let plan = s.plan_physics(idle_input());
    assert_eq!(plan.head_bob, HeadBob::Settle);
    assert_eq!(plan.vertical, VerticalStep::Hold);
    assert_eq!(plan.height, HeightTarget::Standing);
    assert_eq!(plan.horizontal, HorizontalStep::Brake);
    assert_eq!(plan.ledge_probe, LedgeProbe::Skip);
    assert_eq!(s, MotionState::new());
}

#[test]
fn jump_arms_full_probe() {
    let mut s = MotionState::new();
    let input = PhysicsInput { jump_pressed: true, has_move_input: true, sprint_held: true, moving: true, ..idle_input() };
    let plan = s.plan_physics(input);
    assert_eq!(plan.vertical, VerticalStep::Jump);
    assert_eq!(plan.head_bob, HeadBob::Advance);
    assert_eq!(plan.horizontal, HorizontalStep::Steer(SpeedKind::Sprint));
    assert_eq!(plan.ledge_probe, LedgeProbe::Full);
    assert!(s.look_for_ledge);
}

#[test]
fn crouched_jump_probes_short() {
    let mut s = MotionState::new();
    let input = PhysicsInput { jump_pressed: true, crouch_pressed: true, has_move_input: true, sprint_held: true, ..idle_input() };
    let plan = s.plan_physics(input);
    assert!(s.is_crouching);
    assert_eq!(plan.height, HeightTarget::Crouched);
    assert_eq!(plan.horizontal, HorizontalStep::Steer(SpeedKind::Crouch));
    assert_eq!(plan.ledge_probe, LedgeProbe::Short);
}

#[test]
fn airborne_search_persists_then_floor_clears() {
    let mut s = MotionState::new();
    s.plan_physics(PhysicsInput { jump_pressed: true, ..idle_input() });
    let plan = s.plan_physics(PhysicsInput { on_floor: false, ..idle_input() });
    assert_eq!(plan.vertical, VerticalStep::Fall);
    assert_eq!(plan.ledge_probe, LedgeProbe::Full);
    assert!(s.look_for_ledge);
    let plan = s.plan_physics(idle_input());
    assert_eq!(plan.ledge_probe, LedgeProbe::Skip);
    assert!(!s.look_for_ledge);
}

#[test]
fn hold_mode_crouch() {
    let mut s = MotionState { crouch_toggle_mode: false, ..MotionState::new() };
    s.plan_physics(PhysicsInput { crouch_held: true, ..idle_input() });
    assert!(s.is_crouching);
    s.plan_physics(PhysicsInput { crouch_pressed: true, ..idle_input() });
    assert!(!s.is_crouching);
}

#[test]
fn toggle_crouch_over_two_presses() {
    let mut s = MotionState::new();
    s.plan_physics(PhysicsInput { crouch_pressed: true, ..idle_input() });
    assert!(s.is_crouching);
    s.plan_physics(idle_input());
    assert!(s.is_crouching);
    s.plan_physics(PhysicsInput { crouch_pressed: true, ..idle_input() });
    assert!(!s.is_crouching);
}

#[test]
fn probe_rules() {
    assert_eq!(ledge_probe(false, false, false), LedgeProbe::Skip);
    assert_eq!(ledge_probe(true, true, false), LedgeProbe::Skip);
    assert_eq!(ledge_probe(true, false, true), LedgeProbe::Short);
    assert_eq!(ledge_probe(true, false, false), LedgeProbe::Full);
}

#[test]
fn mantle_steps() {
    assert_eq!(mantle_step(false, LedgeProbe::Full, true), MantleStep::Begin);
    assert_eq!(mantle_step(false, LedgeProbe::Short, true), MantleStep::Begin);
    assert_eq!(mantle_step(false, LedgeProbe::Full, false), MantleStep::Free);
    assert_eq!(mantle_step(false, LedgeProbe::Skip, true), MantleStep::Free);
    assert_eq!(mantle_step(true, LedgeProbe::Skip, false), MantleStep::Continue);
}

#[test]
fn mantle_round_trip() {
    let mut s = MotionState::new();
    let plan = s.plan_physics(PhysicsInput { jump_pressed: true, ..idle_input() });
    let before = s;
    let step = s.resolve_mantle(plan.ledge_probe, true);
    assert_eq!(step, MantleStep::Begin);
    assert!(s.is_mantling);
    // a climb that is not done keeps the mantle
    assert!(!s.finish_mantle(false));
    assert!(s.is_mantling);
    // while mantling no probe runs and the climb continues
    let plan = s.plan_physics(PhysicsInput { on_floor: false, ..idle_input() });
    assert_eq!(plan.ledge_probe, LedgeProbe::Skip);
    assert_eq!(s.resolve_mantle(plan.ledge_probe, true), MantleStep::Continue);
    assert!(s.finish_mantle(true));
    assert_eq!(s, before);
}

#[test]
fn finish_without_mantle_does_nothing() {
    let mut s = MotionState::new();
    assert!(!s.finish_mantle(true));
    assert_eq!(s, MotionState::new());
}

#[test]
fn miss_does_not_mantle() {
    let mut s = MotionState::new();
    let plan = s.plan_physics(PhysicsInput { jump_pressed: true, ..idle_input() });
    assert_eq!(s.resolve_mantle(plan.ledge_probe, false), MantleStep::Free);
    assert!(!s.is_mantling);
}
