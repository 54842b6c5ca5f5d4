use wss_fps::movement::{
    head_bob, height_target, horizontal_step, next_crouching, next_ledge_search, select_speed,
    vertical_step, HeadBob, HeightTarget, HorizontalStep, SpeedKind, VerticalStep,
};

#[test]
fn toggle_press_flips_crouch() {
    assert!(next_crouching(true, false, true, false));
    assert!(!next_crouching(true, true, true, true));
}

#[test]
fn toggle_without_press_keeps_crouch() {
    assert!(next_crouching(true, true, false, false));
    assert!(!next_crouching(true, false, false, true));
}

#[test]
fn toggle_press_twice_restores() {
    let once = next_crouching(true, false, true, false);
    let twice = next_crouching(true, once, true, false);
    assert!(once);
    assert!(!twice);
}

#[test]
fn hold_mode_follows_button() {
    assert!(next_crouching(false, false, false, true));
    assert!(!next_crouching(false, true, true, false));
    assert!(next_crouching(false, true, false, true));
}

#[test]
fn height_follows_crouch() {
    assert_eq!(height_target(true), HeightTarget::Crouched);
    assert_eq!(height_target(false), HeightTarget::Standing);
}

#[test]
fn crouch_overrides_sprint() {
    assert_eq!(select_speed(true, true), SpeedKind::Crouch);
    assert_eq!(select_speed(true, false), SpeedKind::Crouch);
    assert_eq!(select_speed(false, true), SpeedKind::Sprint);
    assert_eq!(select_speed(false, false), SpeedKind::Walk);
}

#[test]
fn vertical_steps() {
    assert_eq!(vertical_step(true, true), VerticalStep::Jump);
    assert_eq!(vertical_step(true, false), VerticalStep::Hold);
    assert_eq!(vertical_step(false, true), VerticalStep::Fall);
    assert_eq!(vertical_step(false, false), VerticalStep::Fall);
}

#[test]
fn ledge_search_rules() {
    // a press arms the search on the floor and in the air
    assert!(next_ledge_search(false, true, true));
    assert!(next_ledge_search(false, false, true));
    // the floor clears it
    assert!(!next_ledge_search(true, true, false));
    // in the air it is kept
    assert!(next_ledge_search(true, false, false));
    assert!(!next_ledge_search(false, false, false));
}

#[test]
fn horizontal_steps() {
    assert_eq!(horizontal_step(true, false, true), HorizontalStep::Steer(SpeedKind::Sprint));
    assert_eq!(horizontal_step(true, true, true), HorizontalStep::Steer(SpeedKind::Crouch));
    assert_eq!(horizontal_step(true, false, false), HorizontalStep::Steer(SpeedKind::Walk));
    assert_eq!(horizontal_step(false, false, true), HorizontalStep::Brake);
}

#[test]
fn head_bob_steps() {
    assert_eq!(head_bob(true), HeadBob::Advance);
    assert_eq!(head_bob(false), HeadBob::Settle);
}
