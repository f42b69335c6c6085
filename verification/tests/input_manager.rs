use std::collections::HashMap;

use shinzou::input::input_manager::{
    stick_reading, update_input_entry, DeviceEvent, GamepadEvent, InputManager,
};
use shinzou::input::types::{
    Button, Event, HwAxis, InputMode, InputState, Key, Mouse, MouseMotion, Sign, Stick, Trigger,
    KEY_A, KEY_W,
};

const MS: u128 = 1_000_000;

fn key_event(code: u32, state: Event) -> DeviceEvent {
    DeviceEvent::Key { key: Some(Key::from_code(code)), state }
}

#[test]
fn fresh_manager_reads_nothing() {
    let mgr = InputManager::init(None);
    assert_eq!(mgr.get_current_input_mode(), InputMode::Gamepad);
    assert!(!mgr.is_key_down(Key::from_code(KEY_W)));
    assert!(!mgr.is_mouse_down(Mouse::LMB));
    assert!(!mgr.is_mouse_down(Mouse::ScrollUp));
    assert!(!mgr.is_button_down(Button::South));
    assert!(!mgr.is_button_hold_at(Button::South, 10_000 * MS));
    assert_eq!(mgr.get_axis_sign(HwAxis::LeftStickX), Sign::Zero);
    assert!(!mgr.is_stick_in_motion(Stick::LSUp));
    assert!(!mgr.is_trigger_active(Trigger::LT));
}

#[test]
fn key_press_release_cycle() {
    let mut mgr = InputManager::init(None);
    let w = Key::from_code(KEY_W);
    mgr.update_keyboard_mouse_input_at(key_event(KEY_W, Event::Pressed), 0);
    assert!(mgr.is_key_down(w));
    assert!(!mgr.is_key_hold(w));
    assert_eq!(mgr.get_current_input_mode(), InputMode::KBM);
    mgr.update_keyboard_mouse_input_at(key_event(KEY_W, Event::Released), 10 * MS);
    assert!(!mgr.is_key_down(w));
    assert!(!mgr.is_key_hold(w));
}

#[test]
fn key_becomes_held_after_hold_time() {
    let mut mgr = InputManager::init(Some(500));
    let w = Key::from_code(KEY_W);
    mgr.update_keyboard_mouse_input_at(key_event(KEY_W, Event::Pressed), 0);
    // Exactly the hold time is not enough.
    mgr.update_keyboard_mouse_input_at(key_event(KEY_W, Event::Pressed), 500 * MS);
    assert!(!mgr.is_key_hold(w));
    mgr.update_keyboard_mouse_input_at(key_event(KEY_W, Event::Pressed), 501 * MS);
    assert!(mgr.is_key_hold(w));
    assert!(mgr.is_key_down(w));
    // A held key stays held while pressed.
    mgr.update_keyboard_mouse_input_at(key_event(KEY_W, Event::Pressed), 502 * MS);
    assert!(mgr.is_key_hold(w));
    mgr.update_keyboard_mouse_input_at(key_event(KEY_W, Event::Released), 503 * MS);
    assert!(!mgr.is_key_down(w));
}

#[test]
fn key_events_are_local() {
    let mut mgr = InputManager::init(None);
    mgr.update_keyboard_mouse_input_at(key_event(KEY_W, Event::Pressed), 0);
    mgr.update_keyboard_mouse_input_at(key_event(KEY_A, Event::Pressed), 1);
    mgr.update_keyboard_mouse_input_at(key_event(KEY_A, Event::Released), 2);
    assert!(mgr.is_key_down(Key::from_code(KEY_W)));
    assert!(!mgr.is_key_down(Key::from_code(KEY_A)));
}

#[test]
fn keys_without_code_are_ignored_but_select_kbm() {
    let mut mgr = InputManager::init(None);
    mgr.update_keyboard_mouse_input_at(DeviceEvent::Key { key: None, state: Event::Pressed }, 7);
    assert_eq!(mgr.get_current_input_mode(), InputMode::KBM);
    mgr.update_keyboard_mouse_input_at(DeviceEvent::Other, 8);
    assert_eq!(mgr.get_current_input_mode(), InputMode::KBM);
}

#[test]
fn mouse_buttons_and_unknown_codes() {
    let mut mgr = InputManager::init(Some(100));
    mgr.update_keyboard_mouse_input_at(DeviceEvent::Button { button: 1, state: Event::Pressed }, 0);
    assert!(mgr.is_mouse_down(Mouse::LMB));
    assert!(!mgr.is_mouse_down(Mouse::RMB));
    mgr.update_keyboard_mouse_input_at(DeviceEvent::Button { button: 1, state: Event::Pressed }, 101 * MS);
    assert!(mgr.is_mouse_hold(Mouse::LMB));
    mgr.update_keyboard_mouse_input_at(DeviceEvent::Button { button: 7, state: Event::Pressed }, 102 * MS);
    assert!(!mgr.is_mouse_down(Mouse::MMB));
    mgr.update_keyboard_mouse_input_at(DeviceEvent::Button { button: 1, state: Event::Released }, 103 * MS);
    assert!(!mgr.is_mouse_down(Mouse::LMB));
}

#[test]
fn scroll_counts_as_buttons() {
    let mut mgr = InputManager::init(None);
    mgr.update_keyboard_mouse_input_at(DeviceEvent::MouseWheel { delta: Sign::Positive }, 0);
    assert!(mgr.is_scroll_active(Mouse::ScrollUp));
    assert!(mgr.is_mouse_down(Mouse::ScrollUp));
    assert!(mgr.is_mouse_hold(Mouse::ScrollUp));
    assert!(!mgr.is_mouse_down(Mouse::ScrollDown));
    assert!(!mgr.is_scroll_active(Mouse::LMB));
    mgr.update_keyboard_mouse_input_at(DeviceEvent::MouseWheel { delta: Sign::Negative }, 1);
    assert!(mgr.is_mouse_down(Mouse::ScrollDown));
    assert!(!mgr.is_mouse_down(Mouse::ScrollUp));
}

#[test]
fn mouse_motion_directions() {
    let mut mgr = InputManager::init(None);
    mgr.update_keyboard_mouse_input_at(DeviceEvent::MouseMotion { x: Sign::Negative, y: Sign::Positive }, 0);
    assert!(mgr.is_mouse_in_motion(MouseMotion::XLeft));
    assert!(!mgr.is_mouse_in_motion(MouseMotion::XRight));
    assert!(mgr.is_mouse_in_motion(MouseMotion::YDown));
    assert!(!mgr.is_mouse_in_motion(MouseMotion::YUp));
}

#[test]
fn gamepad_buttons_and_hold() {
    let mut mgr = InputManager::init(Some(500));
    let r = mgr.update_gamepad_event_at(GamepadEvent::ButtonPressed(23), None, 0);
    assert_eq!(r, None);
    assert!(mgr.is_button_down(Button::Start));
    assert!(!mgr.is_button_hold_at(Button::Start, 500 * MS));
    assert!(mgr.is_button_hold_at(Button::Start, 501 * MS));
    // A second press does not reset the time the button went down.
    mgr.update_gamepad_event_at(GamepadEvent::ButtonPressed(23), None, 400 * MS);
    assert!(mgr.is_button_hold_at(Button::Start, 501 * MS));
    mgr.update_gamepad_event_at(GamepadEvent::ButtonReleased(23), None, 600 * MS);
    assert!(!mgr.is_button_down(Button::Start));
    assert!(!mgr.is_button_hold_at(Button::Start, 10_000 * MS));
    // Unknown codes change nothing.
    mgr.update_gamepad_event_at(GamepadEvent::ButtonPressed(99), None, 700 * MS);
    assert!(!mgr.is_button_down(Button::Start));
}

#[test]
fn disconnection_is_reported() {
    let mut mgr = InputManager::init(None);
    assert_eq!(
        mgr.update_gamepad_event_at(GamepadEvent::Disconnected, None, 0),
        Some(GamepadEvent::Disconnected)
    );
    assert_eq!(mgr.update_gamepad_event_at(GamepadEvent::Connected, None, 0), None);
}

#[test]
fn axis_readings_drive_sticks_and_triggers() {
    let mut mgr = InputManager::init(None);
    mgr.update_gamepad_event_at(GamepadEvent::AxisValueChanged { code: 1, reading: Some(Sign::Positive) }, None, 0);
    assert!(mgr.is_stick_in_motion(Stick::LSUp));
    assert!(!mgr.is_stick_in_motion(Stick::LSDown));
    mgr.update_gamepad_event_at(GamepadEvent::AxisValueChanged { code: 3, reading: Some(Sign::Negative) }, None, 0);
    assert!(mgr.is_stick_in_motion(Stick::RSLeft));
    assert!(!mgr.is_stick_in_motion(Stick::RSRight));
    mgr.update_gamepad_event_at(GamepadEvent::AxisValueChanged { code: 11, reading: Some(Sign::Positive) }, None, 0);
    assert!(mgr.is_trigger_active(Trigger::LT));
    assert!(!mgr.is_trigger_active(Trigger::RT));
    // A reading without calibration, or for an unknown axis, changes nothing.
    mgr.update_gamepad_event_at(GamepadEvent::AxisValueChanged { code: 11, reading: None }, None, 0);
    assert!(mgr.is_trigger_active(Trigger::LT));
    mgr.update_gamepad_event_at(GamepadEvent::AxisValueChanged { code: 2, reading: Some(Sign::Negative) }, None, 0);
    assert_eq!(mgr.get_axis_sign(HwAxis::LeftStickX), Sign::Zero);
}

#[test]
fn stick_readings() {
    assert_eq!(stick_reading(Stick::LSUp), (HwAxis::LeftStickY, Sign::Positive));
    assert_eq!(stick_reading(Stick::LSLeft), (HwAxis::LeftStickX, Sign::Negative));
    assert_eq!(stick_reading(Stick::RSDown), (HwAxis::RightStickY, Sign::Negative));
    assert_eq!(stick_reading(Stick::RSRight), (HwAxis::RightStickX, Sign::Positive));
}

#[test]
fn mode_switches_back_to_gamepad_only_for_newer_events() {
    let mut mgr = InputManager::init(None);
    mgr.update_keyboard_mouse_input_at(DeviceEvent::Other, 1_000);
    assert_eq!(mgr.get_current_input_mode(), InputMode::KBM);
    // An event older than the last keyboard activity does not switch.
    mgr.update_gamepad_event_at(GamepadEvent::Connected, Some(600), 1_500);
    assert_eq!(mgr.get_current_input_mode(), InputMode::KBM);
    // An event of unknown age does not switch.
    mgr.update_gamepad_event_at(GamepadEvent::Connected, None, 1_500);
    assert_eq!(mgr.get_current_input_mode(), InputMode::KBM);
    // A newer one does.
    mgr.update_gamepad_event_at(GamepadEvent::Connected, Some(499), 1_500);
    assert_eq!(mgr.get_current_input_mode(), InputMode::Gamepad);
}

#[test]
fn clock_reading_variants_run() {
    let mut mgr = InputManager::init(Some(10_000));
    mgr.update_keyboard_mouse_input(key_event(KEY_W, Event::Pressed));
    assert!(mgr.is_key_down(Key::from_code(KEY_W)));
    assert_eq!(mgr.update_gamepad_event(GamepadEvent::ButtonPressed(12), None), None);
    assert!(mgr.is_button_down(Button::South));
    assert!(!mgr.is_button_hold(Button::South));
}

#[test]
fn update_input_entry_follows_the_state_machine() {
    let mut table: HashMap<u32, (InputState, u128)> = HashMap::new();
    update_input_entry(&mut table, 5, InputState::Down, 100, 0);
    assert_eq!(table.get(&5), Some(&(InputState::Down, 0)));
    update_input_entry(&mut table, 5, InputState::Down, 100, 50 * MS);
    assert_eq!(table.get(&5), Some(&(InputState::Down, 0)));
    update_input_entry(&mut table, 5, InputState::Down, 100, 150 * MS);
    assert_eq!(table.get(&5), Some(&(InputState::Hold, 150 * MS)));
    update_input_entry(&mut table, 5, InputState::Down, 100, 900 * MS);
    assert_eq!(table.get(&5), Some(&(InputState::Hold, 150 * MS)));
    update_input_entry(&mut table, 5, InputState::Up, 100, 901 * MS);
    assert_eq!(table.get(&5), Some(&(InputState::Up, 901 * MS)));
    // A clock reading before the start counts as no time passed.
    update_input_entry(&mut table, 6, InputState::Down, 0, 10 * MS);
    update_input_entry(&mut table, 6, InputState::Down, 0, 5 * MS);
    assert_eq!(table.get(&6), Some(&(InputState::Down, 10 * MS)));
    assert_eq!(table.len(), 2);
}

#[test]
fn gamepad_batch_switches_mode_once_an_event_is_newer() {
    let mut mgr = InputManager::init(None);
    mgr.update_keyboard_mouse_input_at(key_event(KEY_W, Event::Pressed), 1_000);
    assert_eq!(mgr.get_current_input_mode(), InputMode::KBM);
    // Older than the keyboard activity: no switch, and no later reading changes that.
    mgr.update_gamepad_event_at(GamepadEvent::ButtonPressed(12), Some(800), 1_500);
    mgr.update_gamepad_event_at(GamepadEvent::Connected, None, 1_600);
    assert_eq!(mgr.get_current_input_mode(), InputMode::KBM);
    // The third event of the batch happened after the keyboard activity.
    mgr.update_gamepad_event_at(GamepadEvent::ButtonReleased(12), Some(100), 1_700);
    assert_eq!(mgr.get_current_input_mode(), InputMode::Gamepad);
    // Later gamepad events, however old, keep the gamepad mode.
    mgr.update_gamepad_event_at(GamepadEvent::ButtonPressed(12), Some(10_000), 1_800);
    assert_eq!(mgr.get_current_input_mode(), InputMode::Gamepad);
}
