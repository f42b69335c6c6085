use vstd::prelude::*;

use crate::input::input_manager::{entry_down, updated_table, GamepadEvent, InputManager};
use crate::input::legacy::Input;
use crate::input::types::{Button, InputState, Key, KEY_ESCAPE};
use crate::window::WindowState;

verus! {

/// Events that the application sends to its own event loop.
#[derive(Copy, Clone, Debug, PartialEq, Eq, Structural)]
pub enum CoreEvent {
    CloseRequested,
    GamepadDisconnected,
}

/// An event of the windowing system's event loop, reduced to what the loop decides on.
#[derive(Copy, Clone, Debug, PartialEq, Eq, Structural)]
pub enum LoopEvent {
    /// An event the application sent to itself.
    User(CoreEvent),
    /// The window gained or lost focus.
    WindowFocused(bool),
    /// The user asked to close the window.
    WindowCloseRequested,
    /// Any other window event.
    OtherWindowEvent,
    /// A raw device event (its contents go to the input manager).
    Device,
    /// All pending events were handled: time to run a frame.
    MainEventsCleared,
    /// The event loop is shutting down.
    LoopDestroyed,
    /// Any other event.
    Other,
}

/// What the event loop does in response to an event.
#[derive(Copy, Clone, Debug, PartialEq, Eq, Structural)]
pub enum LoopAction {
    Nothing,
    /// Wait for the GPU to go idle, then leave the loop.
    AwaitIdleAndExit,
    /// Wait for the GPU to go idle.
    AwaitIdle,
    /// Hand the device event to the input manager.
    ForwardDeviceEvent,
    /// Run a frame: [`app_frame_action`] says whether the application draws it, and
    /// [`frame_requests`] what the gamepad-driven loop sends before it draws.
    RunFrame,
}

/// The action the loop takes for an event, given whether the window was focused when the event
/// arrived.
pub open spec fn loop_action(focused: bool, event: LoopEvent) -> LoopAction {
    match event {
        LoopEvent::User(CoreEvent::CloseRequested) => LoopAction::AwaitIdleAndExit,
        LoopEvent::WindowCloseRequested => LoopAction::AwaitIdleAndExit,
        LoopEvent::Device => if focused {
            LoopAction::ForwardDeviceEvent
        } else {
            LoopAction::Nothing
        },
        LoopEvent::MainEventsCleared => if focused {
            LoopAction::RunFrame
        } else {
            LoopAction::Nothing
        },
        LoopEvent::LoopDestroyed => LoopAction::AwaitIdle,
        _ => LoopAction::Nothing,
    }
}

/// The focus after an event: focus events set it, and a disconnected gamepad takes it away.
pub open spec fn focus_after(focused: bool, event: LoopEvent) -> bool {
    match event {
        LoopEvent::User(CoreEvent::GamepadDisconnected) => false,
        LoopEvent::WindowFocused(f) => f,
        _ => focused,
    }
}

/// Decides what the main event loop does with an event, and updates the window's focus.
pub fn handle_loop_event(window_state: &mut WindowState, event: LoopEvent) -> (r: LoopAction)
    ensures
        r == loop_action(old(window_state).focused_spec(), event),
        final(window_state).focused_spec() == focus_after(old(window_state).focused_spec(), event),
{
    let is_focused = window_state.is_focused();
    match event {
        LoopEvent::User(user_event) => match user_event {
            CoreEvent::GamepadDisconnected => {
                window_state.update(false);
                LoopAction::Nothing
            },
            CoreEvent::CloseRequested => LoopAction::AwaitIdleAndExit,
        },
        LoopEvent::WindowFocused(state) => {
            window_state.update(state);
            LoopAction::Nothing
        },
        LoopEvent::WindowCloseRequested => LoopAction::AwaitIdleAndExit,
        LoopEvent::Device => {
            if is_focused {
                LoopAction::ForwardDeviceEvent
            } else {
                LoopAction::Nothing
            }
        },
        LoopEvent::MainEventsCleared => {
            if is_focused {
                LoopAction::RunFrame
            } else {
                LoopAction::Nothing
            }
        },
        LoopEvent::LoopDestroyed => LoopAction::AwaitIdle,
        _ => LoopAction::Nothing,
    }
}

/// The events a frame sends to the loop: a disconnection reported by the gamepad poll, then a
/// close request when Escape or the gamepad's Start button is down.
pub open spec fn frame_requests_spec(
    gamepad_disconnected: bool,
    close_pressed: bool,
) -> Seq<CoreEvent> {
    (if gamepad_disconnected {
        seq![CoreEvent::GamepadDisconnected]
    } else {
        Seq::empty()
    }) + (if close_pressed {
        seq![CoreEvent::CloseRequested]
    } else {
        Seq::empty()
    })
}

/// The events to emit during a frame, given what polling the gamepad returned.
pub fn frame_requests(mgr: &InputManager, gamepad_event: Option<GamepadEvent>) -> (r: Vec<
    CoreEvent,
>)
    ensures
        r@ == frame_requests_spec(
            gamepad_event == Some(GamepadEvent::Disconnected),
            mgr@.key_down(Key { code: KEY_ESCAPE }) || mgr@.button_down(Button::Start),
        ),
{
    let mut r: Vec<CoreEvent> = Vec::new();
    if let Some(evt) = gamepad_event {
        if evt == GamepadEvent::Disconnected {
            r.push(CoreEvent::GamepadDisconnected);
        }
    }
    if mgr.is_key_down(Key::from_code(KEY_ESCAPE)) || mgr.is_button_down(Button::Start) {
        r.push(CoreEvent::CloseRequested);
    }
    proof {
        let d = gamepad_event == Some(GamepadEvent::Disconnected);
        let c = mgr@.key_down(Key { code: KEY_ESCAPE }) || mgr@.button_down(Button::Start);
        assert(r@ =~= frame_requests_spec(d, c));
    }
    r
}

/// What the application does in a focused frame.
#[derive(Copy, Clone, Debug, PartialEq, Eq, Structural)]
pub enum FrameAction {
    /// Send [`CoreEvent::CloseRequested`] to the loop and skip drawing this frame.
    RequestCloseWithoutDraw,
    /// Draw the frame.
    Draw,
}

/// A focused frame with Escape down asks the loop to close and is not drawn; any other frame is
/// drawn.
pub open spec fn app_frame_action_spec(escape_down: bool) -> FrameAction {
    if escape_down {
        FrameAction::RequestCloseWithoutDraw
    } else {
        FrameAction::Draw
    }
}

/// Decides what the application does in a focused frame, from the input tracker's state.
pub fn app_frame_action(input: &Input) -> (r: FrameAction)
    ensures
        r == app_frame_action_spec(entry_down(input@.keyboard, KEY_ESCAPE)),
{
    if input.is_key_down(Key::from_code(KEY_ESCAPE)) {
        FrameAction::RequestCloseWithoutDraw
    } else {
        FrameAction::Draw
    }
}

/// In the application loop, with the window focused: a key event is forwarded to the input
/// tracker; once Escape has been recorded as pressed, the next frame asks the loop to close and
/// is not drawn; and the close request it sends makes the loop wait for the GPU and exit.
pub proof fn lemma_escape_closes_without_draw(
    keyboard: Map<u32, (InputState, u128)>,
    hold_time_millis: u128,
    now: u128,
)
    ensures
        loop_action(true, LoopEvent::Device) == LoopAction::ForwardDeviceEvent,
        loop_action(true, LoopEvent::MainEventsCleared) == LoopAction::RunFrame,
        app_frame_action_spec(
            entry_down(
                updated_table(keyboard, KEY_ESCAPE, InputState::Down, hold_time_millis, now),
                KEY_ESCAPE,
            ),
        ) == FrameAction::RequestCloseWithoutDraw,
        loop_action(true, LoopEvent::User(CoreEvent::CloseRequested))
            == LoopAction::AwaitIdleAndExit,
{
}

/// How the window's own event loop keeps running.
#[derive(Copy, Clone, Debug, PartialEq, Eq, Structural)]
pub enum Flow {
    Poll,
    Wait,
    Exit,
}

/// An event of the window's own event loop.
#[derive(Copy, Clone, Debug, PartialEq, Eq, Structural)]
pub enum WindowLoopEvent {
    /// The window was resized to this many physical pixels.
    Resized { width: u32, height: u32 },
    CloseRequested,
    OtherWindowEvent,
    Other,
}

/// A minimized (zero-sized) window waits for events, a close request ends the loop, and
/// anything else keeps polling.
pub fn control_flow_for(event: WindowLoopEvent) -> (r: Flow)
    ensures
        r == match event {
            WindowLoopEvent::Resized { width, height } => if width == 0 || height == 0 {
                Flow::Wait
            } else {
                Flow::Poll
            },
            WindowLoopEvent::CloseRequested => Flow::Exit,
            _ => Flow::Poll,
        },
{
    match event {
        WindowLoopEvent::Resized { width, height } => {
            if width == 0 || height == 0 {
                Flow::Wait
            } else {
                Flow::Poll
            }
        },
        WindowLoopEvent::CloseRequested => Flow::Exit,
        _ => Flow::Poll,
    }
}

/// The loop ends only on a close request, and device events and frames are ignored while the
/// window is unfocused.
pub proof fn lemma_loop_exits_only_on_close(focused: bool, event: LoopEvent)
    ensures
        loop_action(focused, event) == LoopAction::AwaitIdleAndExit <==> (event
            == LoopEvent::User(CoreEvent::CloseRequested) || event
            == LoopEvent::WindowCloseRequested),
        !focused ==> loop_action(focused, event) != LoopAction::ForwardDeviceEvent
            && loop_action(focused, event) != LoopAction::RunFrame,
        focus_after(focused, LoopEvent::User(CoreEvent::GamepadDisconnected)) == false,
{
}

} // verus!
