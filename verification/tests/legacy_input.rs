use shinzou::input::legacy::{ButtonReport, Input};
use shinzou::input::types::{Button, Event, Key, Mouse, KEY_W};

const MS: u128 = 1_000_000;

#[test]
fn legacy_keys_and_mouse() {
    let mut input = Input::init(Some(200));
    let w = Key::from_code(KEY_W);
    input.update_keyboard_input_at(w, Event::Pressed, 0);
    assert!(input.is_key_down(w));
    input.update_keyboard_input_at(w, Event::Pressed, 201 * MS);
    assert!(input.is_key_hold(w));
    input.update_keyboard_input_at(w, Event::Released, 202 * MS);
    assert!(!input.is_key_down(w));
    input.update_mouse_input_at(3, Event::Pressed, 0);
    assert!(input.is_mouse_down(Mouse::RMB));
    assert!(!input.is_mouse_hold(Mouse::RMB));
    input.update_mouse_input_at(5, Event::Pressed, 0);
    assert!(!input.is_mouse_down(Mouse::LMB));
}

#[test]
fn legacy_release_keeps_pressed_buttons_down() {
    let mut input = Input::init(Some(500));
    input.update_gamepad_button_at(ButtonReport::Released(12), 0);
    assert!(!input.is_button_down(Button::South));
    input.update_gamepad_button_at(ButtonReport::Pressed(12), 10 * MS);
    assert!(input.is_button_down(Button::South));
    input.update_gamepad_button_at(ButtonReport::Released(12), 20 * MS);
    assert!(input.is_button_down(Button::South));
    assert!(input.is_button_hold_at(Button::South, 511 * MS));
    assert!(!input.is_button_hold_at(Button::South, 510 * MS));
}

#[test]
fn legacy_ignores_stick_clicks() {
    let mut input = Input::init(None);
    input.update_gamepad_button_at(ButtonReport::Pressed(25), 0);
    assert!(!input.is_button_down(Button::LeftStick));
    input.update_gamepad_button_at(ButtonReport::Pressed(26), 0);
    assert!(!input.is_button_down(Button::RightStick));
}

#[test]
fn legacy_clock_variants_run() {
    let mut input = Input::init(None);
    input.update_keyboard_input(Key::from_code(KEY_W), Event::Pressed);
    assert!(input.is_key_down(Key::from_code(KEY_W)));
    assert!(!input.is_button_hold(Button::Start));
    input.update_mouse_input(1, Event::Pressed);
    assert!(input.is_mouse_down(Mouse::LMB));
    input.update_gamepad_button(ButtonReport::Pressed(23));
    assert!(input.is_button_down(Button::Start));
    input.update_gamepad_button(ButtonReport::Released(23));
    assert!(input.is_button_down(Button::Start));
}
