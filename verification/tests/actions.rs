use shinzou::input::actions::{ActionContexts, InGameActions, InputActions, MainMenuActions};
use shinzou::input::input_manager::{DeviceEvent, GamepadEvent, InputManager};
use shinzou::input::types::{
    ActionBindings, Event, GamepadInput, Key, KeyboardMouseInput, Sign, Stick, KEY_LSHIFT,
    KEY_RSHIFT, KEY_UP, KEY_W,
};

const MS: u128 = 1_000_000;

fn press(mgr: &mut InputManager, code: u32, now: u128) {
    mgr.update_keyboard_mouse_input_at(
        DeviceEvent::Key { key: Some(Key::from_code(code)), state: Event::Pressed },
        now,
    );
}

#[test]
fn contexts_start_inactive() {
    let actions = InputActions::init();
    assert!(!actions.is_context_active(ActionContexts::MainMenu));
    assert!(!actions.is_context_active(ActionContexts::InGame));
    assert!(actions.get_active_contexts().is_empty());
}

#[test]
fn contexts_can_be_set_and_removed() {
    let mut actions = InputActions::init();
    actions.set_active_context(ActionContexts::InGame);
    assert!(actions.is_context_active(ActionContexts::InGame));
    assert!(!actions.is_context_active(ActionContexts::MainMenu));
    actions.set_active_context(ActionContexts::InGame);
    actions.set_active_context(ActionContexts::MainMenu);
    assert_eq!(
        actions.get_active_contexts(),
        vec![ActionContexts::MainMenu, ActionContexts::InGame]
    );
    actions.remove_active_context(ActionContexts::InGame);
    assert_eq!(actions.get_active_contexts(), vec![ActionContexts::MainMenu]);
    actions.remove_active_context(ActionContexts::InGame);
    assert_eq!(actions.get_active_contexts(), vec![ActionContexts::MainMenu]);
}

#[test]
fn inactive_context_never_triggers() {
    let actions = InputActions::init();
    let mut mgr = InputManager::init(None);
    press(&mut mgr, KEY_W, 0);
    assert!(!actions.is_in_game_action_down(&mgr, InGameActions::Forward));
}

#[test]
fn keyboard_triggers_in_game_actions() {
    let mut actions = InputActions::init();
    actions.set_active_context(ActionContexts::InGame);
    let mut mgr = InputManager::init(Some(100));
    press(&mut mgr, KEY_W, 0);
    assert!(actions.is_in_game_action_down(&mgr, InGameActions::Forward));
    assert!(!actions.is_in_game_action_down(&mgr, InGameActions::Backward));
    assert!(!actions.is_in_game_action_hold_at(&mgr, InGameActions::Forward, 0));
    press(&mut mgr, KEY_W, 101 * MS);
    assert!(actions.is_in_game_action_hold_at(&mgr, InGameActions::Forward, 101 * MS));
    // Main menu actions stay off while the main menu is inactive.
    press(&mut mgr, KEY_UP, 102 * MS);
    assert!(!actions.is_main_menu_action_down(&mgr, MainMenuActions::Up));
    actions.set_active_context(ActionContexts::MainMenu);
    assert!(actions.is_main_menu_action_down(&mgr, MainMenuActions::Up));
}

#[test]
fn sprint_has_two_keys() {
    let mut actions = InputActions::init();
    actions.set_active_context(ActionContexts::InGame);
    let mut mgr = InputManager::init(None);
    press(&mut mgr, KEY_RSHIFT, 0);
    assert!(actions.is_in_game_action_down(&mgr, InGameActions::Sprint));
    let mut mgr2 = InputManager::init(None);
    press(&mut mgr2, KEY_LSHIFT, 0);
    assert!(actions.is_in_game_action_down(&mgr2, InGameActions::Sprint));
}

#[test]
fn mouse_motion_triggers_look_actions() {
    let mut actions = InputActions::init();
    actions.set_active_context(ActionContexts::InGame);
    let mut mgr = InputManager::init(None);
    mgr.update_keyboard_mouse_input_at(DeviceEvent::MouseMotion { x: Sign::Positive, y: Sign::Negative }, 0);
    assert!(actions.is_in_game_action_down(&mgr, InGameActions::LookRight));
    assert!(actions.is_in_game_action_down(&mgr, InGameActions::LookUp));
    assert!(!actions.is_in_game_action_down(&mgr, InGameActions::LookLeft));
    assert!(actions.is_in_game_action_hold_at(&mgr, InGameActions::LookUp, 0));
}

#[test]
fn gamepad_mode_reads_gamepad_bindings() {
    let mut actions = InputActions::init();
    actions.set_active_context(ActionContexts::InGame);
    let mut mgr = InputManager::init(Some(100));
    // The manager starts in gamepad mode: keyboard input is not consulted.
    mgr.update_gamepad_event_at(GamepadEvent::AxisValueChanged { code: 1, reading: Some(Sign::Positive) }, None, 0);
    assert!(actions.is_in_game_action_down(&mgr, InGameActions::Forward));
    mgr.update_gamepad_event_at(GamepadEvent::ButtonPressed(18), None, 0);
    assert!(actions.is_in_game_action_down(&mgr, InGameActions::Sprint));
    assert!(!actions.is_in_game_action_hold_at(&mgr, InGameActions::Sprint, 100 * MS));
    assert!(actions.is_in_game_action_hold_at(&mgr, InGameActions::Sprint, 101 * MS));
    // Keyboard input switches the mode; the stick no longer counts.
    press(&mut mgr, KEY_UP, 200 * MS);
    assert!(!actions.is_in_game_action_down(&mgr, InGameActions::Forward));
}

#[test]
fn binding_queries_follow_the_mode() {
    let actions = InputActions::init();
    let mut mgr = InputManager::init(None);
    let binding = ActionBindings::builder()
        .gamepad(GamepadInput::Stick(Stick::RSUp))
        .kbm_alt(KeyboardMouseInput::Key(Key::from_code(KEY_W)));
    assert!(!actions.is_binding_down(&binding, &mgr));
    press(&mut mgr, KEY_W, 0);
    assert!(actions.is_binding_down(&binding, &mgr));
    assert!(!actions.is_binding_hold(&binding, &mgr, 0));
}

#[test]
fn clock_reading_hold_queries_run() {
    let mut actions = InputActions::init();
    actions.set_active_context(ActionContexts::InGame);
    let mgr = InputManager::init(None);
    assert!(!actions.is_in_game_action_hold(&mgr, InGameActions::Forward));
    assert!(!actions.is_main_menu_action_hold(&mgr, MainMenuActions::Down));
}
