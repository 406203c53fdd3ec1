use game_core::actions::game_control::{
    get_direction, get_gamepad_movement, get_movement, Axes, GameControl, GamepadMovement,
    GamepadSample, PressedControls, StickReading, DEAD_ZONE_DENOMINATOR, DEAD_ZONE_NUMERATOR,
    THRESHOLD_DENOMINATOR, THRESHOLD_NUMERATOR,
};
use game_core::actions::{set_movement_actions, Actions, Heading, RawInputSample};

fn keys(up: bool, down: bool, left: bool, right: bool) -> PressedControls {
    PressedControls { up, down, left, right }
}

fn released() -> PressedControls {
    keys(false, false, false, false)
}

fn stick(beyond_dead_zone: bool, beyond_threshold: bool) -> StickReading {
    StickReading { beyond_dead_zone, beyond_threshold }
}

fn resolve(keyboard: PressedControls, gamepad: Option<GamepadSample>) -> Option<Heading> {
    let mut actions = Actions::default();
    set_movement_actions(&mut actions, &RawInputSample { keyboard, gamepad });
    actions.player_movement
}

#[test]
fn keyboard_vector_is_right_minus_left_and_up_minus_down() {
    let mut seen = 0;
    for bits in 0u8..16 {
        let up = bits & 1 != 0;
        let down = bits & 2 != 0;
        let left = bits & 4 != 0;
        let right = bits & 8 != 0;
        let held = get_direction(&keys(up, down, left, right));
        assert_eq!(held.x, right as i8 - left as i8);
        assert_eq!(held.y, up as i8 - down as i8);
        seen += 1;
    }
    assert_eq!(seen, 16);
}

#[test]
fn opposing_keys_cancel_on_their_axis() {
    assert_eq!(get_direction(&keys(true, true, false, false)), Axes { x: 0, y: 0 });
    assert_eq!(get_direction(&keys(false, false, true, true)), Axes { x: 0, y: 0 });
    assert_eq!(get_direction(&keys(true, true, false, true)), Axes { x: 1, y: 0 });
    assert_eq!(get_direction(&keys(true, false, true, true)), Axes { x: 0, y: 1 });
    assert_eq!(get_direction(&keys(true, true, true, true)), Axes { x: 0, y: 0 });
}

#[test]
fn single_keys_point_along_their_axis() {
    assert_eq!(get_direction(&keys(true, false, false, false)), Axes { x: 0, y: 1 });
    assert_eq!(get_direction(&keys(false, true, false, false)), Axes { x: 0, y: -1 });
    assert_eq!(get_direction(&keys(false, false, true, false)), Axes { x: -1, y: 0 });
    assert_eq!(get_direction(&keys(false, false, false, true)), Axes { x: 1, y: 0 });
}

#[test]
fn a_held_control_adds_one_and_a_released_one_nothing() {
    let held = keys(true, false, false, true);
    assert_eq!(get_movement(GameControl::Up, &held), 1);
    assert_eq!(get_movement(GameControl::Down, &held), 0);
    assert_eq!(get_movement(GameControl::Left, &held), 0);
    assert_eq!(get_movement(GameControl::Right, &held), 1);
    assert!(GameControl::Up.pressed(&held));
    assert!(!GameControl::Left.pressed(&held));
}

#[test]
fn zero_vector_is_told_apart() {
    assert!(Axes { x: 0, y: 0 }.is_zero());
    assert!(!Axes { x: 1, y: 0 }.is_zero());
    assert!(!Axes { x: 0, y: -1 }.is_zero());
    assert!(!Axes { x: -1, y: 1 }.is_zero());
}

#[test]
fn default_actions_hold_no_movement() {
    assert_eq!(Actions::default().player_movement, None);
}

#[test]
fn nonzero_keyboard_vector_is_the_heading() {
    for bits in 0u8..16 {
        let held = keys(bits & 1 != 0, bits & 2 != 0, bits & 4 != 0, bits & 8 != 0);
        let vector = get_direction(&held);
        let heading = resolve(held, None);
        if vector.is_zero() {
            assert_eq!(heading, None);
        } else {
            assert_eq!(heading, Some(Heading::Keyboard(vector)));
        }
    }
}

#[test]
fn diagonal_keys_keep_their_direction() {
    assert_eq!(
        resolve(keys(true, false, false, true), None),
        Some(Heading::Keyboard(Axes { x: 1, y: 1 }))
    );
    assert_eq!(
        resolve(keys(false, true, true, false), None),
        Some(Heading::Keyboard(Axes { x: -1, y: -1 }))
    );
}

#[test]
fn keyboard_wins_over_an_engaged_gamepad() {
    let pad = GamepadSample { buttons: keys(false, true, false, false), stick: stick(true, true) };
    assert_eq!(
        resolve(keys(true, false, false, false), Some(pad)),
        Some(Heading::Keyboard(Axes { x: 0, y: 1 }))
    );
}

#[test]
fn no_input_leaves_the_intent_absent() {
    assert_eq!(resolve(released(), None), None);
    let idle = GamepadSample { buttons: released(), stick: stick(false, false) };
    assert_eq!(resolve(released(), Some(idle)), None);
    assert_eq!(resolve(keys(true, true, true, true), Some(idle)), None);
}

#[test]
fn stick_at_or_below_the_threshold_leaves_the_intent_absent() {
    let weak = GamepadSample { buttons: released(), stick: stick(true, false) };
    assert_eq!(resolve(released(), Some(weak)), None);
    let weak_with_buttons =
        GamepadSample { buttons: keys(true, false, false, false), stick: stick(true, false) };
    assert_eq!(resolve(released(), Some(weak_with_buttons)), None);
}

#[test]
fn stick_above_the_threshold_is_the_heading() {
    let strong = GamepadSample { buttons: released(), stick: stick(true, true) };
    assert_eq!(resolve(released(), Some(strong)), Some(Heading::GamepadStick));
    assert_eq!(resolve(keys(false, false, true, true), Some(strong)), Some(Heading::GamepadStick));
}

#[test]
fn resting_stick_falls_back_to_the_buttons() {
    let pad = GamepadSample { buttons: keys(false, false, true, false), stick: stick(false, false) };
    assert_eq!(resolve(released(), Some(pad)), Some(Heading::GamepadButtons(Axes { x: -1, y: 0 })));
    let ignored_flag =
        GamepadSample { buttons: released(), stick: stick(false, true) };
    assert_eq!(resolve(released(), Some(ignored_flag)), None);
    let cancelled = GamepadSample { buttons: keys(true, true, false, false), stick: stick(false, false) };
    assert_eq!(resolve(released(), Some(cancelled)), None);
}

#[test]
fn gamepad_vector_is_the_stick_beyond_the_dead_zone_else_the_buttons() {
    assert_eq!(
        get_gamepad_movement(&None),
        GamepadMovement::Buttons(Axes { x: 0, y: 0 })
    );
    let pad = GamepadSample { buttons: keys(true, false, false, true), stick: stick(true, false) };
    assert_eq!(
        get_gamepad_movement(&Some(pad)),
        GamepadMovement::Stick { beyond_threshold: false }
    );
    let pad = GamepadSample { buttons: keys(true, false, false, true), stick: stick(false, true) };
    assert_eq!(
        get_gamepad_movement(&Some(pad)),
        GamepadMovement::Buttons(Axes { x: 1, y: 1 })
    );
}

#[test]
fn button_sums_exceed_the_threshold_unless_zero() {
    assert!(!GamepadMovement::Buttons(Axes { x: 0, y: 0 }).exceeds_threshold());
    assert!(GamepadMovement::Buttons(Axes { x: 1, y: 0 }).exceeds_threshold());
    assert!(GamepadMovement::Buttons(Axes { x: 0, y: -1 }).exceeds_threshold());
    assert!(GamepadMovement::Buttons(Axes { x: -1, y: 1 }).exceeds_threshold());
    assert!(GamepadMovement::Buttons(Axes { x: -128, y: 127 }).exceeds_threshold());
    assert!(GamepadMovement::Stick { beyond_threshold: true }.exceeds_threshold());
    assert!(!GamepadMovement::Stick { beyond_threshold: false }.exceeds_threshold());
}

#[test]
fn threshold_and_dead_zone_are_one_tenth() {
    assert_eq!(THRESHOLD_NUMERATOR, 1);
    assert_eq!(THRESHOLD_DENOMINATOR, 10);
    assert_eq!(THRESHOLD_NUMERATOR as f32 / THRESHOLD_DENOMINATOR as f32, 0.1f32);
    assert_eq!(DEAD_ZONE_NUMERATOR, 1);
    assert_eq!(DEAD_ZONE_DENOMINATOR, 10);
}

#[test]
fn resolving_overwrites_the_previous_intent() {
    let mut actions = Actions::default();
    let sample = RawInputSample { keyboard: keys(false, false, false, true), gamepad: None };
    set_movement_actions(&mut actions, &sample);
    assert_eq!(actions.player_movement, Some(Heading::Keyboard(Axes { x: 1, y: 0 })));
    let sample = RawInputSample { keyboard: released(), gamepad: None };
    set_movement_actions(&mut actions, &sample);
    assert_eq!(actions.player_movement, None);
}

#[test]
fn heading_follows_the_gamepad_vector() {
    assert_eq!(
        Heading::from_gamepad(GamepadMovement::Stick { beyond_threshold: true }),
        Heading::GamepadStick
    );
    assert_eq!(
        Heading::from_gamepad(GamepadMovement::Buttons(Axes { x: 0, y: 1 })),
        Heading::GamepadButtons(Axes { x: 0, y: 1 })
    );
}
