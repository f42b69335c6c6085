use shinzou::event_loop::{
    control_flow_for, frame_requests, handle_loop_event, CoreEvent, Flow, LoopAction, LoopEvent,
    WindowLoopEvent, app_frame_action, FrameAction,
};
use shinzou::input::legacy::Input;
use shinzou::input::input_manager::{DeviceEvent, GamepadEvent, InputManager};
use shinzou::input::types::{Event, Key, KEY_ESCAPE};
use shinzou::window::WindowState;

#[test]
fn window_starts_focused_and_tracks_focus() {
    let mut ws = WindowState::init();
    assert!(ws.is_focused());
    ws.update(false);
    assert!(!ws.is_focused());
    ws.update(true);
    assert!(ws.is_focused());
}

#[test]
fn close_requests_exit() {
    let mut ws = WindowState::init();
    assert_eq!(
        handle_loop_event(&mut ws, LoopEvent::User(CoreEvent::CloseRequested)),
        LoopAction::AwaitIdleAndExit
    );
    assert_eq!(handle_loop_event(&mut ws, LoopEvent::WindowCloseRequested), LoopAction::AwaitIdleAndExit);
    assert_eq!(handle_loop_event(&mut ws, LoopEvent::LoopDestroyed), LoopAction::AwaitIdle);
    assert_eq!(handle_loop_event(&mut ws, LoopEvent::Other), LoopAction::Nothing);
    assert_eq!(handle_loop_event(&mut ws, LoopEvent::OtherWindowEvent), LoopAction::Nothing);
}

#[test]
fn unfocused_window_ignores_input_and_frames() {
    let mut ws = WindowState::init();
    assert_eq!(handle_loop_event(&mut ws, LoopEvent::Device), LoopAction::ForwardDeviceEvent);
    assert_eq!(handle_loop_event(&mut ws, LoopEvent::MainEventsCleared), LoopAction::RunFrame);
    assert_eq!(handle_loop_event(&mut ws, LoopEvent::WindowFocused(false)), LoopAction::Nothing);
    assert!(!ws.is_focused());
    assert_eq!(handle_loop_event(&mut ws, LoopEvent::Device), LoopAction::Nothing);
    assert_eq!(handle_loop_event(&mut ws, LoopEvent::MainEventsCleared), LoopAction::Nothing);
    handle_loop_event(&mut ws, LoopEvent::WindowFocused(true));
    assert!(ws.is_focused());
}

#[test]
fn gamepad_disconnection_unfocuses() {
    let mut ws = WindowState::init();
    assert_eq!(
        handle_loop_event(&mut ws, LoopEvent::User(CoreEvent::GamepadDisconnected)),
        LoopAction::Nothing
    );
    assert!(!ws.is_focused());
}

#[test]
fn frame_requests_report_disconnect_and_close() {
    let mut mgr = InputManager::init(None);
    assert_eq!(frame_requests(&mgr, None), vec![]);
    assert_eq!(
        frame_requests(&mgr, Some(GamepadEvent::Disconnected)),
        vec![CoreEvent::GamepadDisconnected]
    );
    mgr.update_keyboard_mouse_input_at(
        DeviceEvent::Key { key: Some(Key::from_code(KEY_ESCAPE)), state: Event::Pressed },
        0,
    );
    assert_eq!(frame_requests(&mgr, None), vec![CoreEvent::CloseRequested]);
    assert_eq!(
        frame_requests(&mgr, Some(GamepadEvent::Disconnected)),
        vec![CoreEvent::GamepadDisconnected, CoreEvent::CloseRequested]
    );
}

#[test]
fn start_button_requests_close() {
    let mut mgr = InputManager::init(None);
    mgr.update_gamepad_event_at(GamepadEvent::ButtonPressed(23), None, 0);
    assert_eq!(frame_requests(&mgr, None), vec![CoreEvent::CloseRequested]);
}

#[test]
fn window_loop_control_flow() {
    assert_eq!(control_flow_for(WindowLoopEvent::Resized { width: 0, height: 720 }), Flow::Wait);
    assert_eq!(control_flow_for(WindowLoopEvent::Resized { width: 1280, height: 0 }), Flow::Wait);
    assert_eq!(control_flow_for(WindowLoopEvent::Resized { width: 1280, height: 720 }), Flow::Poll);
    assert_eq!(control_flow_for(WindowLoopEvent::CloseRequested), Flow::Exit);
    assert_eq!(control_flow_for(WindowLoopEvent::OtherWindowEvent), Flow::Poll);
    assert_eq!(control_flow_for(WindowLoopEvent::Other), Flow::Poll);
}

#[test]
fn app_frame_with_escape_requests_close_and_skips_drawing() {
    let mut input = Input::init(None);
    let mut ws = WindowState::init();
    assert_eq!(handle_loop_event(&mut ws, LoopEvent::MainEventsCleared), LoopAction::RunFrame);
    assert_eq!(app_frame_action(&input), FrameAction::Draw);
    assert_eq!(handle_loop_event(&mut ws, LoopEvent::Device), LoopAction::ForwardDeviceEvent);
    input.update_keyboard_input_at(Key::from_code(KEY_ESCAPE), Event::Pressed, 0);
    assert_eq!(handle_loop_event(&mut ws, LoopEvent::MainEventsCleared), LoopAction::RunFrame);
    assert_eq!(app_frame_action(&input), FrameAction::RequestCloseWithoutDraw);
    assert_eq!(
        handle_loop_event(&mut ws, LoopEvent::User(CoreEvent::CloseRequested)),
        LoopAction::AwaitIdleAndExit
    );
    input.update_keyboard_input_at(Key::from_code(KEY_ESCAPE), Event::Released, 10);
    assert_eq!(app_frame_action(&input), FrameAction::Draw);
}
