use std::convert::TryFrom;

use shinzou::input::legacy::Axis;
use shinzou::input::types::{
    ActionBindings, Button, Event, GamepadInput, HwAxis, InputState, Key, KeyboardMouseInput,
    Mouse, MouseMotion, Stick, KEY_ESCAPE, KEY_W,
};

#[test]
fn pressed_event_puts_input_down() {
    assert_eq!(InputState::from(Event::Pressed), InputState::Down);
    assert_eq!(InputState::from(Event::Released), InputState::Up);
}

#[test]
fn mouse_codes_name_the_three_buttons() {
    assert_eq!(Mouse::try_from(1u32).ok(), Some(Mouse::LMB));
    assert_eq!(Mouse::try_from(2u32).ok(), Some(Mouse::MMB));
    assert_eq!(Mouse::try_from(3u32).ok(), Some(Mouse::RMB));
    assert!(Mouse::try_from(0u32).is_err());
    assert!(Mouse::try_from(4u32).is_err());
}

#[test]
fn mouse_code_error_message() {
    let err = Mouse::try_from(9u32).unwrap_err();
    assert_eq!(err.message(), "Failed to obtain MouseButton code from u32!");
}

#[test]
fn hw_axis_codes() {
    assert_eq!(HwAxis::try_from(0u32).ok(), Some(HwAxis::LeftStickX));
    assert_eq!(HwAxis::try_from(1u32).ok(), Some(HwAxis::LeftStickY));
    assert_eq!(HwAxis::try_from(3u32).ok(), Some(HwAxis::RightStickX));
    assert_eq!(HwAxis::try_from(4u32).ok(), Some(HwAxis::RightStickY));
    assert_eq!(HwAxis::try_from(10u32).ok(), Some(HwAxis::RightTrigger));
    assert_eq!(HwAxis::try_from(11u32).ok(), Some(HwAxis::LeftTrigger));
    let err = HwAxis::try_from(2u32).unwrap_err();
    assert_eq!(err.message(), "Failed to obtain GamepadAxis code from EvCode!");
}

#[test]
fn legacy_axis_codes_swap_the_triggers() {
    assert_eq!(Axis::try_from(10u32).ok(), Some(Axis::LeftTrigger));
    assert_eq!(Axis::try_from(11u32).ok(), Some(Axis::RightTrigger));
    assert_eq!(Axis::try_from(0u32).ok(), Some(Axis::LeftStickX));
    let err = Axis::try_from(5u32).unwrap_err();
    assert_eq!(err.message(), "Failed to obtain GamepadAxis code from EvCode!");
}

#[test]
fn button_codes() {
    let expected = [
        (27u32, Button::DPadUp),
        (28, Button::DPadDown),
        (29, Button::DPadLeft),
        (30, Button::DPadRight),
        (15, Button::North),
        (12, Button::South),
        (16, Button::East),
        (13, Button::West),
        (18, Button::LeftBumper),
        (19, Button::RightBumper),
        (22, Button::Select),
        (23, Button::Start),
        (25, Button::LeftStick),
        (26, Button::RightStick),
    ];
    for (code, button) in expected.iter() {
        assert_eq!(Button::try_from(*code).ok(), Some(*button));
    }
    for code in [0u32, 14, 17, 20, 21, 24, 31].iter() {
        assert!(Button::try_from(*code).is_err());
    }
    let err = Button::try_from(24u32).unwrap_err();
    assert_eq!(err.message(), "Failed to obtain Button code from EvCode!");
}

#[test]
fn table_indices_are_distinct() {
    assert_eq!(Mouse::ScrollDown.index(), 4);
    assert_eq!(Button::RightStick.index(), 13);
    assert_eq!(HwAxis::RightTrigger.index(), 5);
    assert_eq!(Key::from_code(KEY_ESCAPE).code, 36);
}

#[test]
fn builder_starts_empty() {
    let b = ActionBindings::builder();
    assert_eq!(b.get_kbm_bindings(), [None, None]);
    assert_eq!(b.get_gamepad_bindings(), [None, None]);
}

#[test]
fn builder_sets_each_slot() {
    let b = ActionBindings::builder()
        .gamepad(GamepadInput::Stick(Stick::LSUp))
        .gamepad_alt(GamepadInput::Button(Button::North))
        .kbm(KeyboardMouseInput::Key(Key::from_code(KEY_W)))
        .kbm_alt(KeyboardMouseInput::MouseMotion(MouseMotion::YUp));
    assert_eq!(
        b.get_gamepad_bindings(),
        [Some(GamepadInput::Stick(Stick::LSUp)), Some(GamepadInput::Button(Button::North))]
    );
    assert_eq!(
        b.get_kbm_bindings(),
        [
            Some(KeyboardMouseInput::Key(Key::from_code(KEY_W))),
            Some(KeyboardMouseInput::MouseMotion(MouseMotion::YUp))
        ]
    );
}
