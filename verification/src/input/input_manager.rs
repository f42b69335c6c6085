use std::collections::HashMap;
use std::time::Instant;
use vstd::prelude::*;

use crate::clock::{duration_as_nanos, instant_elapsed, instant_now};
use crate::input::types::{
    button_code, button_from_code, button_index, hw_axis_code, hw_axis_from_code, hw_axis_index, input_state_from_event,
    mouse_from_code, mouse_index, Button, Event, HwAxis, InputMode, InputState, Key, Mouse,
    MouseMotion, Sign, Stick, Trigger,
};

verus! {

/// How long an input has to stay down before it counts as held, unless the caller says otherwise.
pub const DEFAULT_HOLD_TIME_MILLIS: u128 = 500;

/// The later of two clock readings.
pub open spec fn later_reading(a: u128, b: u128) -> u128 {
    if b > a {
        b
    } else {
        a
    }
}

/// A tracked digital input: its state and the clock reading (nanoseconds since the manager was
/// made) of its last state change.
pub type InputEntry = (InputState, u128);

/// Whole milliseconds from `start` to `now`; zero when `now` is not after `start`.
pub open spec fn elapsed_millis(start: u128, now: u128) -> int {
    if now >= start {
        (now - start) / 1_000_000
    } else {
        0
    }
}

/// The entry of a table, if there is one.
pub open spec fn table_entry(table: Map<u32, InputEntry>, key: u32) -> Option<InputEntry> {
    if table.contains_key(key) {
        Some(table[key])
    } else {
        None
    }
}

/// The entry that a key or mouse button gets when `state` is reported for it at `now`:
/// a new input takes the reported state; a held input stays held while it is reported down;
/// an input that has been down for longer than the hold time and is reported down again becomes
/// held; any other report replaces the entry.
pub open spec fn next_entry(
    old: Option<InputEntry>,
    state: InputState,
    hold_time_millis: u128,
    now: u128,
) -> InputEntry {
    match old {
        None => (state, now),
        Some(e) => {
            if e.0 == InputState::Hold && state == InputState::Down {
                e
            } else if e.0 == InputState::Down && state == InputState::Down {
                if elapsed_millis(e.1, now) > hold_time_millis {
                    (InputState::Hold, now)
                } else {
                    e
                }
            } else {
                (state, now)
            }
        },
    }
}

/// A table after `state` was reported for `key` at `now`.
pub open spec fn updated_table(
    table: Map<u32, InputEntry>,
    key: u32,
    state: InputState,
    hold_time_millis: u128,
    now: u128,
) -> Map<u32, InputEntry> {
    table.insert(key, next_entry(table_entry(table, key), state, hold_time_millis, now))
}

/// The gamepad table after `state` was reported for the button with event code `code` at
/// `now`: unknown codes change nothing, and a button's entry is only replaced when its state
/// changes.
pub open spec fn updated_button_table(
    table: Map<u32, InputEntry>,
    code: u32,
    state: InputState,
    now: u128,
) -> Map<u32, InputEntry> {
    match button_from_code(code) {
        None => table,
        Some(b) => {
            let k = button_index(b);
            if table.contains_key(k) && table[k].0 == state {
                table
            } else {
                table.insert(k, (state, now))
            }
        },
    }
}

/// Whether a table holds the input as pressed (down or held).
pub open spec fn entry_down(table: Map<u32, InputEntry>, key: u32) -> bool {
    table.contains_key(key) && table[key].0 != InputState::Up
}

/// Whether a table holds the input as held.
pub open spec fn entry_hold(table: Map<u32, InputEntry>, key: u32) -> bool {
    table.contains_key(key) && table[key].0 == InputState::Hold
}

/// A device event of the keyboard or the mouse, with the analog readings reduced to their sign.
#[derive(Clone, Copy, Debug)]
pub enum DeviceEvent {
    /// A key changed state; `key` is `None` for keys without a virtual key code.
    Key { key: Option<Key>, state: Event },
    /// A mouse button changed state; `button` is the raw button code.
    Button { button: u32, state: Event },
    /// The mouse moved by a delta with these signs.
    MouseMotion { x: Sign, y: Sign },
    /// The wheel scrolled by a delta with this sign.
    MouseWheel { delta: Sign },
    /// Any other device event.
    Other,
}

/// An event of the gamepad driver.
#[derive(Clone, Copy, Debug, PartialEq, Eq, Structural)]
pub enum GamepadEvent {
    Connected,
    Disconnected,
    /// The button with this event code was pressed.
    ButtonPressed(u32),
    /// The button with this event code was released.
    ButtonReleased(u32),
    /// The axis with this event code moved; `reading` is the sign of its normalized offset, or
    /// `None` when the gamepad or the axis's calibration could not be looked up.
    AxisValueChanged { code: u32, reading: Option<Sign> },
}

/// The abstract state of an [`InputManager`].
pub struct InputManagerView {
    /// Keys by virtual key code.
    pub keyboard: Map<u32, InputEntry>,
    /// Mouse buttons by their position in the button table.
    pub mouse: Map<u32, InputEntry>,
    /// Signs of the last mouse movement (horizontal, vertical).
    pub mouse_motion: (Sign, Sign),
    /// Sign of the last scroll.
    pub scroll: Sign,
    /// Gamepad buttons by their position in the button table.
    pub gamepad: Map<u32, InputEntry>,
    /// Signs of the last readings of the gamepad axes, by position in the axis table.
    pub gamepad_axis: Map<u32, Sign>,
    pub mode: InputMode,
    /// Clock reading of the last change of input mode.
    pub last_input_update: u128,
    pub hold_time_millis: u128,
}

impl InputManagerView {
    pub open spec fn key_down(self, key: Key) -> bool {
        entry_down(self.keyboard, key.code)
    }

    pub open spec fn key_hold(self, key: Key) -> bool {
        entry_hold(self.keyboard, key.code)
    }

    pub open spec fn scroll_active(self, button: Mouse) -> bool {
        match button {
            Mouse::ScrollUp => self.scroll == Sign::Positive,
            Mouse::ScrollDown => self.scroll == Sign::Negative,
            _ => false,
        }
    }

    pub open spec fn mouse_down(self, button: Mouse) -> bool {
        if button.is_scroll() {
            self.scroll_active(button)
        } else {
            entry_down(self.mouse, mouse_index(button))
        }
    }

    pub open spec fn mouse_hold(self, button: Mouse) -> bool {
        if button.is_scroll() {
            self.scroll_active(button)
        } else {
            entry_hold(self.mouse, mouse_index(button))
        }
    }

    pub open spec fn mouse_in_motion(self, motion: MouseMotion) -> bool {
        match motion {
            MouseMotion::XLeft => self.mouse_motion.0 == Sign::Negative,
            MouseMotion::XRight => self.mouse_motion.0 == Sign::Positive,
            MouseMotion::YUp => self.mouse_motion.1 == Sign::Negative,
            MouseMotion::YDown => self.mouse_motion.1 == Sign::Positive,
        }
    }

    pub open spec fn button_down(self, button: Button) -> bool {
        entry_down(self.gamepad, button_index(button))
    }

    /// A gamepad button is held when it has been down for longer than the hold time.
    pub open spec fn button_hold_at(self, button: Button, now: u128) -> bool {
        let k = button_index(button);
        &&& self.gamepad.contains_key(k)
        &&& self.gamepad[k].0 == InputState::Down
        &&& elapsed_millis(self.gamepad[k].1, now) > self.hold_time_millis
    }

    pub open spec fn axis_sign(self, axis: HwAxis) -> Sign {
        let k = hw_axis_index(axis);
        if self.gamepad_axis.contains_key(k) {
            self.gamepad_axis[k]
        } else {
            Sign::Zero
        }
    }

    pub open spec fn stick_in_motion(self, stick: Stick) -> bool {
        self.axis_sign(stick_axis(stick)) == stick_direction(stick)
    }

    pub open spec fn trigger_active(self, trigger: Trigger) -> bool {
        self.axis_sign(trigger_axis(trigger)) == Sign::Positive
    }

    /// The state after a keyboard or mouse event at `now`: the mode switches to keyboard and
    /// mouse, and the event is applied.
    pub open spec fn after_device_event(self, event: DeviceEvent, now: u128) -> InputManagerView {
        let s = if self.mode != InputMode::KBM {
            InputManagerView { mode: InputMode::KBM, last_input_update: now, ..self }
        } else {
            self
        };
        match event {
            DeviceEvent::Key { key: Some(k), state } => InputManagerView {
                keyboard: updated_table(
                    s.keyboard,
                    k.code,
                    input_state_from_event(state),
                    s.hold_time_millis,
                    now,
                ),
                ..s
            },
            DeviceEvent::Button { button, state } => match mouse_from_code(button) {
                Some(m) => InputManagerView {
                    mouse: updated_table(
                        s.mouse,
                        mouse_index(m),
                        input_state_from_event(state),
                        s.hold_time_millis,
                        now,
                    ),
                    ..s
                },
                None => s,
            },
            DeviceEvent::MouseMotion { x, y } => InputManagerView { mouse_motion: (x, y), ..s },
            DeviceEvent::MouseWheel { delta } => InputManagerView { scroll: delta, ..s },
            _ => s,
        }
    }

    /// Whether a gamepad event that happened `event_age` nanoseconds ago (`None` when its age is
    /// unknown) switches the mode to the gamepad at `now`: it must be newer than the last
    /// keyboard-and-mouse activity.
    pub open spec fn switches_to_gamepad(self, event_age: Option<u128>, now: u128) -> bool {
        &&& self.mode != InputMode::Gamepad
        &&& event_age matches Some(age)
        &&& (age as int) < (if now >= self.last_input_update {
            now - self.last_input_update
        } else {
            0
        })
    }

    /// The state after a gamepad event at `now`.
    pub open spec fn after_gamepad_event(
        self,
        event: GamepadEvent,
        event_age: Option<u128>,
        now: u128,
    ) -> InputManagerView {
        let s = if self.switches_to_gamepad(event_age, now) {
            InputManagerView { mode: InputMode::Gamepad, last_input_update: now, ..self }
        } else {
            self
        };
        match event {
            GamepadEvent::AxisValueChanged { code, reading: Some(sign) } => match hw_axis_from_code(
                code,
            ) {
                Some(axis) => InputManagerView {
                    gamepad_axis: s.gamepad_axis.insert(hw_axis_index(axis), sign),
                    ..s
                },
                None => s,
            },
            GamepadEvent::ButtonPressed(code) => InputManagerView {
                gamepad: updated_button_table(s.gamepad, code, InputState::Down, now),
                ..s
            },
            GamepadEvent::ButtonReleased(code) => InputManagerView {
                gamepad: updated_button_table(s.gamepad, code, InputState::Up, now),
                ..s
            },
            _ => s,
        }
    }
}

/// The axis that a stick direction reads.
pub open spec fn stick_axis(stick: Stick) -> HwAxis {
    match stick {
        Stick::LSUp | Stick::LSDown => HwAxis::LeftStickY,
        Stick::LSLeft | Stick::LSRight => HwAxis::LeftStickX,
        Stick::RSUp | Stick::RSDown => HwAxis::RightStickY,
        Stick::RSLeft | Stick::RSRight => HwAxis::RightStickX,
    }
}

/// The sign of the axis offset that moves a stick in a direction.
pub open spec fn stick_direction(stick: Stick) -> Sign {
    match stick {
        Stick::LSUp | Stick::LSRight | Stick::RSUp | Stick::RSRight => Sign::Positive,
        _ => Sign::Negative,
    }
}

/// The axis that a stick direction reads, and the sign of the offset that pushes the stick that
/// way.
pub fn stick_reading(stick: Stick) -> (r: (HwAxis, Sign))
    ensures
        r == (stick_axis(stick), stick_direction(stick)),
{
    match stick {
        Stick::LSUp => (HwAxis::LeftStickY, Sign::Positive),
        Stick::LSDown => (HwAxis::LeftStickY, Sign::Negative),
        Stick::LSLeft => (HwAxis::LeftStickX, Sign::Negative),
        Stick::LSRight => (HwAxis::LeftStickX, Sign::Positive),
        Stick::RSUp => (HwAxis::RightStickY, Sign::Positive),
        Stick::RSDown => (HwAxis::RightStickY, Sign::Negative),
        Stick::RSLeft => (HwAxis::RightStickX, Sign::Negative),
        Stick::RSRight => (HwAxis::RightStickX, Sign::Positive),
    }
}

/// The axis that a trigger reads.
pub open spec fn trigger_axis(trigger: Trigger) -> HwAxis {
    match trigger {
        Trigger::LT => HwAxis::LeftTrigger,
        Trigger::RT => HwAxis::RightTrigger,
    }
}

/// Tracks the state of keyboard keys, mouse buttons and gamepad buttons over time, the direction
/// of the last mouse, scroll and gamepad axis readings, and which kind of device was used last.
pub struct InputManager {
    keyboard: HashMap<u32, InputEntry>,
    mouse: HashMap<u32, InputEntry>,
    mouse_motion: (Sign, Sign),
    scroll: Sign,
    gamepad: HashMap<u32, InputEntry>,
    gamepad_axis: HashMap<u32, Sign>,
    current_input_mode: InputMode,
    last_input_update: u128,
    hold_time_millis: u128,
    clock_origin: Instant,
    latest_reading: u128,
}

impl View for InputManager {
    type V = InputManagerView;

    closed spec fn view(&self) -> InputManagerView {
        InputManagerView {
            keyboard: self.keyboard@,
            mouse: self.mouse@,
            mouse_motion: self.mouse_motion,
            scroll: self.scroll,
            gamepad: self.gamepad@,
            gamepad_axis: self.gamepad_axis@,
            mode: self.current_input_mode,
            last_input_update: self.last_input_update,
            hold_time_millis: self.hold_time_millis,
        }
    }
}

impl InputManager {
    /// The latest clock reading that the manager has recorded or read.
    pub closed spec fn latest_reading(&self) -> u128 {
        self.latest_reading
    }

    /// A manager with nothing pressed, no motion, the gamepad as input mode, and the given hold
    /// time (half a second by default).
    pub fn init(hold_time_millis: Option<u128>) -> (r: Self)
        ensures
            r@.keyboard.is_empty(),
            r@.mouse.is_empty(),
            r@.gamepad.is_empty(),
            r@.gamepad_axis.is_empty(),
            r@.mouse_motion == (Sign::Zero, Sign::Zero),
            r@.scroll == Sign::Zero,
            r@.mode == InputMode::Gamepad,
            r@.last_input_update == 0,
            r@.hold_time_millis == match hold_time_millis {
                Some(h) => h,
                None => DEFAULT_HOLD_TIME_MILLIS,
            },
            r.latest_reading() == 0,
    {
        let hold = match hold_time_millis {
            Some(h) => h,
            None => DEFAULT_HOLD_TIME_MILLIS,
        };
        InputManager {
            keyboard: HashMap::new(),
            mouse: HashMap::new(),
            mouse_motion: (Sign::Zero, Sign::Zero),
            scroll: Sign::Zero,
            gamepad: HashMap::new(),
            gamepad_axis: HashMap::new(),
            current_input_mode: InputMode::Gamepad,
            last_input_update: 0,
            hold_time_millis: hold,
            clock_origin: instant_now(),
            latest_reading: 0,
        }
    }

    /// The clock reading now: nanoseconds since the manager was made, on the same scale as the
    /// readings the manager records, and never earlier than any of them (the clock is monotonic;
    /// a reading behind the latest recorded one is taken as that one).
    pub(crate) fn now(&self) -> (r: u128)
        ensures
            r >= self.latest_reading(),
    {
        let elapsed = instant_elapsed(&self.clock_origin);
        let reading = duration_as_nanos(&elapsed);
        if reading >= self.latest_reading {
            reading
        } else {
            self.latest_reading
        }
    }

    /// Records that clock reading `now` was seen.
    fn record_reading(&mut self, now: u128)
        ensures
            final(self)@ == old(self)@,
            final(self).latest_reading() == later_reading(old(self).latest_reading(), now),
    {
        if now > self.latest_reading {
            self.latest_reading = now;
        }
    }

    /// Applies one gamepad event that happened `event_age` nanoseconds ago (`None` when its age
    /// is unknown), reading the clock for the current time. Returns the event when it is a
    /// disconnection, which ends the processing of the event queue.
    pub fn update_gamepad_event(&mut self, event: GamepadEvent, event_age: Option<u128>) -> (r:
        Option<GamepadEvent>)
        ensures
            exists|now: u128|
                now >= old(self).latest_reading() && final(self).latest_reading() == now
                    && final(self)@ == #[trigger] old(self)@.after_gamepad_event(
                    event,
                    event_age,
                    now,
                ),
            r == (if event == GamepadEvent::Disconnected {
                Some(GamepadEvent::Disconnected)
            } else {
                None
            }),
    {
        let now = self.now();
        self.update_gamepad_event_at(event, event_age, now)
    }

    /// Applies one gamepad event at clock reading `now`; see [`Self::update_gamepad_event`].
    pub fn update_gamepad_event_at(
        &mut self,
        event: GamepadEvent,
        event_age: Option<u128>,
        now: u128,
    ) -> (r: Option<GamepadEvent>)
        ensures
            final(self)@ == old(self)@.after_gamepad_event(event, event_age, now),
            final(self).latest_reading() == later_reading(old(self).latest_reading(), now),
            r == (if event == GamepadEvent::Disconnected {
                Some(GamepadEvent::Disconnected)
            } else {
                None
            }),
    {
        self.record_reading(now);
        if self.current_input_mode != InputMode::Gamepad {
            if let Some(age) = event_age {
                let since_last: u128 = if now >= self.last_input_update {
                    now - self.last_input_update
                } else {
                    0
                };
                if age < since_last {
                    self.current_input_mode = InputMode::Gamepad;
                    self.last_input_update = now;
                }
            }
        }
        match event {
            GamepadEvent::Connected => None,
            GamepadEvent::Disconnected => Some(GamepadEvent::Disconnected),
            GamepadEvent::AxisValueChanged { code, reading } => {
                if let Some(sign) = reading {
                    if let Ok(axis) = HwAxis::try_from(code) {
                        self.gamepad_axis.insert(axis.index(), sign);
                    }
                }
                None
            },
            GamepadEvent::ButtonPressed(code) => {
                self.update_button_state(code, InputState::Down, now);
                None
            },
            GamepadEvent::ButtonReleased(code) => {
                self.update_button_state(code, InputState::Up, now);
                None
            },
        }
    }

    fn update_button_state(&mut self, code: u32, new_state: InputState, now: u128)
        ensures
            final(self)@ == (InputManagerView {
                gamepad: updated_button_table(old(self)@.gamepad, code, new_state, now),
                ..old(self)@
            }),
            final(self).latest_reading() == old(self).latest_reading(),
    {
        if let Ok(button) = Button::try_from(code) {
            let k = button.index();
            let changed = match self.gamepad.get(&k) {
                Some(e) => e.0 != new_state,
                None => true,
            };
            if changed {
                self.gamepad.insert(k, (new_state, now));
            }
        }
    }

    /// Applies one keyboard or mouse event, reading the clock for the current time.
    pub fn update_keyboard_mouse_input(&mut self, event: DeviceEvent)
        ensures
            exists|now: u128|
                now >= old(self).latest_reading() && final(self).latest_reading() == now
                    && final(self)@ == #[trigger] old(self)@.after_device_event(event, now),
    {
        let now = self.now();
        self.update_keyboard_mouse_input_at(event, now);
    }

    /// Applies one keyboard or mouse event at clock reading `now`.
    pub fn update_keyboard_mouse_input_at(&mut self, event: DeviceEvent, now: u128)
        ensures
            final(self)@ == old(self)@.after_device_event(event, now),
            final(self).latest_reading() == later_reading(old(self).latest_reading(), now),
    {
        self.record_reading(now);
        if self.current_input_mode != InputMode::KBM {
            self.last_input_update = now;
            self.current_input_mode = InputMode::KBM;
        }
        match event {
            DeviceEvent::Key { key, state } => {
                if let Some(k) = key {
                    self.update_keyboard_input(k, state, now);
                }
            },
            DeviceEvent::Button { button, state } => {
                self.update_mouse_input(button, state, now);
            },
            DeviceEvent::MouseMotion { x, y } => {
                self.update_mouse_deltas(x, y);
            },
            DeviceEvent::MouseWheel { delta } => {
                self.update_mouse_scroll(delta);
            },
            DeviceEvent::Other => {},
        }
    }

    fn update_keyboard_input(&mut self, key: Key, event: Event, now: u128)
        ensures
            final(self)@ == (InputManagerView {
                keyboard: updated_table(
                    old(self)@.keyboard,
                    key.code,
                    input_state_from_event(event),
                    old(self)@.hold_time_millis,
                    now,
                ),
                ..old(self)@
            }),
            final(self).latest_reading() == old(self).latest_reading(),
    {
        let hold = self.hold_time_millis;
        update_input_entry(&mut self.keyboard, key.code, InputState::from(event), hold, now);
    }

    fn update_mouse_input(&mut self, code: u32, event: Event, now: u128)
        ensures
            final(self)@ == match mouse_from_code(code) {
                Some(m) => InputManagerView {
                    mouse: updated_table(
                        old(self)@.mouse,
                        mouse_index(m),
                        input_state_from_event(event),
                        old(self)@.hold_time_millis,
                        now,
                    ),
                    ..old(self)@
                },
                None => old(self)@,
            },
            final(self).latest_reading() == old(self).latest_reading(),
    {
        if let Ok(button) = Mouse::try_from(code) {
            let hold = self.hold_time_millis;
            update_input_entry(&mut self.mouse, button.index(), InputState::from(event), hold, now);
        }
    }

    fn update_mouse_deltas(&mut self, x: Sign, y: Sign)
        ensures
            final(self)@ == (InputManagerView { mouse_motion: (x, y), ..old(self)@ }),
            final(self).latest_reading() == old(self).latest_reading(),
    {
        self.mouse_motion = (x, y);
    }

    fn update_mouse_scroll(&mut self, delta: Sign)
        ensures
            final(self)@ == (InputManagerView { scroll: delta, ..old(self)@ }),
            final(self).latest_reading() == old(self).latest_reading(),
    {
        self.scroll = delta;
    }

    /// The kind of device used last.
    pub fn get_current_input_mode(&self) -> (r: InputMode)
        ensures
            r == self@.mode,
    {
        self.current_input_mode
    }

    /// Whether the key is down or held.
    pub fn is_key_down(&self, key: Key) -> (r: bool)
        ensures
            r == self@.key_down(key),
    {
        match self.keyboard.get(&key.code) {
            Some(e) => e.0 != InputState::Up,
            None => false,
        }
    }

    /// Whether the key is held.
    pub fn is_key_hold(&self, key: Key) -> (r: bool)
        ensures
            r == self@.key_hold(key),
    {
        match self.keyboard.get(&key.code) {
            Some(e) => e.0 == InputState::Hold,
            None => false,
        }
    }

    /// Whether the mouse button is down or held; for a scroll direction, whether the last scroll
    /// went that way.
    pub fn is_mouse_down(&self, button: Mouse) -> (r: bool)
        ensures
            r == self@.mouse_down(button),
    {
        match button {
            Mouse::ScrollDown | Mouse::ScrollUp => self.is_scroll_active(button),
            _ => match self.mouse.get(&button.index()) {
                Some(e) => e.0 != InputState::Up,
                None => false,
            },
        }
    }

    /// Whether the mouse button is held; for a scroll direction, whether the last scroll went
    /// that way.
    pub fn is_mouse_hold(&self, button: Mouse) -> (r: bool)
        ensures
            r == self@.mouse_hold(button),
    {
        match button {
            Mouse::ScrollDown | Mouse::ScrollUp => self.is_scroll_active(button),
            _ => match self.mouse.get(&button.index()) {
                Some(e) => e.0 == InputState::Hold,
                None => false,
            },
        }
    }

    /// Whether the last scroll went in the direction of `button` (always false for the other
    /// buttons).
    pub fn is_scroll_active(&self, button: Mouse) -> (r: bool)
        ensures
            r == self@.scroll_active(button),
    {
        match button {
            Mouse::ScrollUp => self.scroll == Sign::Positive,
            Mouse::ScrollDown => self.scroll == Sign::Negative,
            _ => false,
        }
    }

    /// Whether the last mouse movement went in the given direction.
    pub fn is_mouse_in_motion(&self, mouse_motion: MouseMotion) -> (r: bool)
        ensures
            r == self@.mouse_in_motion(mouse_motion),
    {
        let (x_delta, y_delta) = self.mouse_motion;
        match mouse_motion {
            MouseMotion::XLeft => x_delta == Sign::Negative,
            MouseMotion::XRight => x_delta == Sign::Positive,
            MouseMotion::YUp => y_delta == Sign::Negative,
            MouseMotion::YDown => y_delta == Sign::Positive,
        }
    }

    /// Whether the gamepad button is down.
    pub fn is_button_down(&self, button: Button) -> (r: bool)
        ensures
            r == self@.button_down(button),
    {
        match self.gamepad.get(&button.index()) {
            Some(e) => e.0 != InputState::Up,
            None => false,
        }
    }

    /// Whether the gamepad button has been down for longer than the hold time, reading the clock
    /// for the current time.
    pub fn is_button_hold(&self, button: Button) -> (r: bool)
        ensures
            exists|now: u128|
                now >= self.latest_reading() && r == #[trigger] self@.button_hold_at(button, now),
    {
        let now = self.now();
        self.is_button_hold_at(button, now)
    }

    /// Whether the gamepad button has been down for longer than the hold time at clock reading
    /// `now`.
    pub fn is_button_hold_at(&self, button: Button, now: u128) -> (r: bool)
        ensures
            r == self@.button_hold_at(button, now),
    {
        match self.gamepad.get(&button.index()) {
            Some(e) => {
                if e.0 == InputState::Down {
                    let elapsed: u128 = if now >= e.1 {
                        (now - e.1) / 1_000_000
                    } else {
                        0
                    };
                    elapsed > self.hold_time_millis
                } else {
                    false
                }
            },
            None => false,
        }
    }

    /// The sign of the axis's last reading (zero when there was none).
    pub fn get_axis_sign(&self, axis: HwAxis) -> (r: Sign)
        ensures
            r == self@.axis_sign(axis),
    {
        match self.gamepad_axis.get(&axis.index()) {
            Some(s) => *s,
            None => Sign::Zero,
        }
    }

    /// Whether the stick is pushed in the given direction.
    pub fn is_stick_in_motion(&self, stick: Stick) -> (r: bool)
        ensures
            r == self@.stick_in_motion(stick),
    {
        let (axis, direction) = stick_reading(stick);
        self.get_axis_sign(axis) == direction
    }

    /// Whether the trigger is pulled.
    pub fn is_trigger_active(&self, trigger: Trigger) -> (r: bool)
        ensures
            r == self@.trigger_active(trigger),
    {
        let axis = match trigger {
            Trigger::LT => HwAxis::LeftTrigger,
            Trigger::RT => HwAxis::RightTrigger,
        };
        self.get_axis_sign(axis) == Sign::Positive
    }
}

/// Reports `state` for `key` at `now` in a table of keys or mouse buttons, following
/// [`next_entry`].
pub fn update_input_entry(
    hash_map: &mut HashMap<u32, InputEntry>,
    key: u32,
    state: InputState,
    hold_time_millis: u128,
    now: u128,
)
    ensures
        final(hash_map)@ == updated_table(old(hash_map)@, key, state, hold_time_millis, now),
{
    let old_entry = match hash_map.get(&key) {
        Some(e) => Some(*e),
        None => None,
    };
    match old_entry {
        None => {
            hash_map.insert(key, (state, now));
        },
        Some(e) => {
            if e.0 == InputState::Hold && state == InputState::Down {
                hash_map.insert(key, e);
            } else if e.0 == InputState::Down && state == InputState::Down {
                let elapsed: u128 = if now >= e.1 {
                    (now - e.1) / 1_000_000
                } else {
                    0
                };
                if elapsed > hold_time_millis {
                    hash_map.insert(key, (InputState::Hold, now));
                } else {
                    hash_map.insert(key, e);
                }
            } else {
                hash_map.insert(key, (state, now));
            }
        },
    }
}

/// Held inputs are down: a held key or mouse button also reads as down, and so does a gamepad
/// button that has been down long enough to count as held.
pub proof fn lemma_hold_implies_down(v: InputManagerView, key: Key, button: Mouse, pad: Button, now: u128)
    ensures
        v.key_hold(key) ==> v.key_down(key),
        v.mouse_hold(button) ==> v.mouse_down(button),
        v.button_hold_at(pad, now) ==> v.button_down(pad),
{
}

/// Pressing a key makes it read as down, and releasing it makes it read as neither down nor
/// held, whatever its state before.
pub proof fn lemma_key_press_and_release(v: InputManagerView, key: Key, now: u128)
    ensures
        v.after_device_event(DeviceEvent::Key { key: Some(key), state: Event::Pressed }, now).key_down(key),
        !v.after_device_event(DeviceEvent::Key { key: Some(key), state: Event::Released }, now).key_down(key),
        !v.after_device_event(DeviceEvent::Key { key: Some(key), state: Event::Released }, now).key_hold(key),
{
}

/// A held key stays held while it keeps being reported pressed.
pub proof fn lemma_hold_persists_while_pressed(v: InputManagerView, key: Key, now: u128)
    requires
        v.key_hold(key),
    ensures
        v.after_device_event(DeviceEvent::Key { key: Some(key), state: Event::Pressed }, now).key_hold(key),
{
}

/// A key that went down at `start` and is reported pressed again at `now` becomes held exactly
/// when more than the hold time has passed; until then its entry stays as it was.
pub proof fn lemma_key_becomes_held(v: InputManagerView, key: Key, start: u128, now: u128)
    requires
        v.keyboard.contains_key(key.code),
        v.keyboard[key.code] == (InputState::Down, start),
    ensures
        ({
            let w = v.after_device_event(DeviceEvent::Key { key: Some(key), state: Event::Pressed }, now);
            &&& w.key_hold(key) <==> elapsed_millis(start, now) > v.hold_time_millis
            &&& !w.key_hold(key) ==> w.keyboard[key.code] == (InputState::Down, start)
        }),
{
}

/// A fresh press restarts the hold timer. In a table of keys or mouse buttons, an input that is
/// not down and is reported pressed at `now` goes down at `now`; reported pressed again at
/// `later`, it is held exactly when more than the hold time has passed since `now`, and
/// otherwise still counts from `now`.
pub proof fn lemma_fresh_press_restarts_hold(
    table: Map<u32, InputEntry>,
    key: u32,
    hold_time_millis: u128,
    now: u128,
    later: u128,
)
    requires
        !entry_down(table, key),
        now <= later,
    ensures
        updated_table(table, key, InputState::Down, hold_time_millis, now)[key] == (
            InputState::Down,
            now,
        ),
        ({
            let again = updated_table(
                updated_table(table, key, InputState::Down, hold_time_millis, now),
                key,
                InputState::Down,
                hold_time_millis,
                later,
            );
            &&& entry_hold(again, key) <==> (later - now) / 1_000_000 > hold_time_millis
            &&& !entry_hold(again, key) ==> again[key] == (InputState::Down, now)
        }),
{
}

/// The same for the manager: a key that is up and is pressed at `now` goes down at `now`, and a
/// key-repeat press at `later` makes it held only when more than the hold time has passed since
/// that press, however long ago the key went down before it was released.
pub proof fn lemma_key_repress_restarts_hold(v: InputManagerView, key: Key, now: u128, later: u128)
    requires
        !v.key_down(key),
        now <= later,
    ensures
        ({
            let pressed = v.after_device_event(
                DeviceEvent::Key { key: Some(key), state: Event::Pressed },
                now,
            );
            let repeated = pressed.after_device_event(
                DeviceEvent::Key { key: Some(key), state: Event::Pressed },
                later,
            );
            &&& pressed.keyboard[key.code] == (InputState::Down, now)
            &&& repeated.key_hold(key) <==> (later - now) / 1_000_000 > v.hold_time_millis
        }),
{
    let s = if v.mode != InputMode::KBM {
        InputManagerView { mode: InputMode::KBM, last_input_update: now, ..v }
    } else {
        v
    };
    lemma_fresh_press_restarts_hold(s.keyboard, key.code, v.hold_time_millis, now, later);
}

/// The same for the physical mouse buttons.
pub proof fn lemma_mouse_repress_restarts_hold(
    v: InputManagerView,
    code: u32,
    now: u128,
    later: u128,
)
    requires
        1 <= code <= 3,
        !v.mouse_down(mouse_from_code(code).unwrap()),
        now <= later,
    ensures
        ({
            let m = mouse_from_code(code).unwrap();
            let pressed = v.after_device_event(
                DeviceEvent::Button { button: code, state: Event::Pressed },
                now,
            );
            let repeated = pressed.after_device_event(
                DeviceEvent::Button { button: code, state: Event::Pressed },
                later,
            );
            &&& pressed.mouse[mouse_index(m)] == (InputState::Down, now)
            &&& repeated.mouse_hold(m) <==> (later - now) / 1_000_000 > v.hold_time_millis
        }),
{
    let m = mouse_from_code(code).unwrap();
    let s = if v.mode != InputMode::KBM {
        InputManagerView { mode: InputMode::KBM, last_input_update: now, ..v }
    } else {
        v
    };
    lemma_fresh_press_restarts_hold(s.mouse, mouse_index(m), v.hold_time_millis, now, later);
}

/// Every reading of a known axis replaces the axis's sign, zero included: a stick direction on
/// that axis then reads as moving exactly when the reading points that way, and a trigger on it
/// is active exactly when the reading is positive.
pub proof fn lemma_axis_reading_replaces_sign(
    v: InputManagerView,
    axis: HwAxis,
    sign: Sign,
    age: Option<u128>,
    now: u128,
    stick: Stick,
    trigger: Trigger,
)
    ensures
        ({
            let w = v.after_gamepad_event(
                GamepadEvent::AxisValueChanged { code: hw_axis_code(axis), reading: Some(sign) },
                age,
                now,
            );
            &&& w.axis_sign(axis) == sign
            &&& stick_axis(stick) == axis ==> (w.stick_in_motion(stick) <==> sign
                == stick_direction(stick))
            &&& trigger_axis(trigger) == axis ==> (w.trigger_active(trigger) <==> sign
                == Sign::Positive)
            &&& sign == Sign::Zero && stick_axis(stick) == axis ==> !w.stick_in_motion(stick)
        }),
{
}

/// A gamepad button that is not down and is pressed at reading `t` is held at a later reading
/// `t2` exactly when more than the hold time, in whole milliseconds, has passed since `t`. The
/// clock-reading query [`InputManager::is_button_hold`] answers at a reading no earlier than any
/// the manager has recorded, so in particular no earlier than `t`.
pub proof fn lemma_button_press_then_hold(
    v: InputManagerView,
    b: Button,
    age: Option<u128>,
    t: u128,
    t2: u128,
)
    requires
        !v.button_down(b),
        t <= t2,
    ensures
        v.after_gamepad_event(GamepadEvent::ButtonPressed(button_code(b)), age, t).button_hold_at(
            b,
            t2,
        ) <==> (t2 - t) / 1_000_000 > v.hold_time_millis,
        later_reading(t, t2) == t2,
{
}

/// A key event changes no other key.
pub proof fn lemma_key_event_is_local(v: InputManagerView, key: Key, other: Key, state: Event, now: u128)
    requires
        key.code != other.code,
    ensures
        ({
            let w = v.after_device_event(DeviceEvent::Key { key: Some(key), state }, now);
            &&& table_entry(w.keyboard, other.code) == table_entry(v.keyboard, other.code)
            &&& w.key_down(other) == v.key_down(other)
            &&& w.key_hold(other) == v.key_hold(other)
        }),
{
}

/// Pressing a physical mouse button makes it read as down; releasing it makes it read as up.
pub proof fn lemma_mouse_press_and_release(v: InputManagerView, code: u32, now: u128)
    requires
        1 <= code <= 3,
    ensures
        ({
            let m = mouse_from_code(code).unwrap();
            &&& v.after_device_event(DeviceEvent::Button { button: code, state: Event::Pressed }, now).mouse_down(m)
            &&& !v.after_device_event(DeviceEvent::Button { button: code, state: Event::Released }, now).mouse_down(m)
        }),
{
}

/// Scrolling up makes the scroll-up "button" read as down and the scroll-down one as up, and the
/// other way round.
pub proof fn lemma_scroll_direction(v: InputManagerView, now: u128)
    ensures
        v.after_device_event(DeviceEvent::MouseWheel { delta: Sign::Positive }, now).mouse_down(Mouse::ScrollUp),
        !v.after_device_event(DeviceEvent::MouseWheel { delta: Sign::Positive }, now).mouse_down(Mouse::ScrollDown),
        v.after_device_event(DeviceEvent::MouseWheel { delta: Sign::Negative }, now).mouse_down(Mouse::ScrollDown),
        !v.after_device_event(DeviceEvent::MouseWheel { delta: Sign::Negative }, now).mouse_down(Mouse::ScrollUp),
{
}

/// Any keyboard or mouse event makes keyboard and mouse the input mode.
pub proof fn lemma_device_event_selects_kbm(v: InputManagerView, event: DeviceEvent, now: u128)
    ensures
        v.after_device_event(event, now).mode == InputMode::KBM,
{
}

/// A gamepad event switches the mode to the gamepad exactly when it is newer than the last
/// change to keyboard and mouse; it never switches the mode to keyboard and mouse.
pub proof fn lemma_gamepad_event_mode(
    v: InputManagerView,
    event: GamepadEvent,
    age: u128,
    now: u128,
)
    requires
        v.mode == InputMode::KBM,
        now >= v.last_input_update,
    ensures
        v.after_gamepad_event(event, Some(age), now).mode == InputMode::Gamepad <==> age
            < now - v.last_input_update,
        v.after_gamepad_event(event, None, now).mode == InputMode::KBM,
{
}

/// The state after a batch of gamepad events, applied in order; each entry is an event, its age
/// (`None` when unknown) and the clock reading when it was applied.
pub open spec fn after_gamepad_events(
    v: InputManagerView,
    events: Seq<(GamepadEvent, Option<u128>, u128)>,
) -> InputManagerView
    decreases events.len(),
{
    if events.len() == 0 {
        v
    } else {
        let e = events.last();
        after_gamepad_events(v, events.drop_last()).after_gamepad_event(e.0, e.1, e.2)
    }
}

/// Whether a gamepad event, applied at its clock reading, happened after the keyboard-and-mouse
/// activity at clock reading `since`: its age is below the time elapsed since then.
pub open spec fn newer_than(e: (GamepadEvent, Option<u128>, u128), since: u128) -> bool {
    &&& e.1 matches Some(age)
    &&& (age as int) < (if e.2 >= since {
        e.2 - since
    } else {
        0
    })
}

/// Over a batch of gamepad events that starts in keyboard-and-mouse mode, the mode ends up as the
/// gamepad exactly when some event of the batch happened after the last keyboard-and-mouse
/// activity; a batch that starts in gamepad mode never leaves it.
pub proof fn lemma_gamepad_batch_mode(
    v: InputManagerView,
    events: Seq<(GamepadEvent, Option<u128>, u128)>,
)
    ensures
        v.mode == InputMode::KBM ==> (after_gamepad_events(v, events).mode == InputMode::Gamepad
            <==> exists|i: int| 0 <= i < events.len() && #[trigger] newer_than(
            events[i],
            v.last_input_update,
        )),
        v.mode == InputMode::Gamepad ==> after_gamepad_events(v, events).mode
            == InputMode::Gamepad,
    decreases events.len(),
{
    lemma_gamepad_batch_kbm_clock(v, events);
    if events.len() > 0 {
        let prefix = events.drop_last();
        let e = events.last();
        lemma_gamepad_batch_mode(v, prefix);
        if v.mode == InputMode::KBM {
            let w = after_gamepad_events(v, prefix);
            if w.mode == InputMode::Gamepad {
                let i = choose|i: int| 0 <= i < prefix.len() && #[trigger] newer_than(
                    prefix[i],
                    v.last_input_update,
                );
                assert(events[i] == prefix[i]);
            } else {
                lemma_gamepad_batch_kbm_clock(v, prefix);
                assert(events[events.len() - 1] == e);
                assert(newer_than(e, v.last_input_update) <==> w.switches_to_gamepad(e.1, e.2));
                assert(after_gamepad_events(v, events) == w.after_gamepad_event(e.0, e.1, e.2));
                assert forall|i: int| 0 <= i < events.len() - 1 implies !#[trigger] newer_than(
                    events[i],
                    v.last_input_update,
                ) by {
                    assert(events[i] == prefix[i]);
                }
            }
        }
    }
}

/// While a batch of gamepad events leaves the mode at keyboard and mouse, the clock reading of the
/// last mode change stays as it was.
proof fn lemma_gamepad_batch_kbm_clock(
    v: InputManagerView,
    events: Seq<(GamepadEvent, Option<u128>, u128)>,
)
    ensures
        after_gamepad_events(v, events).mode == InputMode::KBM ==> after_gamepad_events(
            v,
            events,
        ).last_input_update == v.last_input_update && v.mode == InputMode::KBM,
    decreases events.len(),
{
    if events.len() > 0 {
        lemma_gamepad_batch_kbm_clock(v, events.drop_last());
    }
}

/// Pressing a gamepad button makes it read as down; releasing it makes it read as up; and a
/// press of a button that is already down keeps the time it went down.
pub proof fn lemma_gamepad_press_and_release(v: InputManagerView, b: Button, age: Option<u128>, now: u128)
    ensures
        v.after_gamepad_event(GamepadEvent::ButtonPressed(button_code(b)), age, now).button_down(b),
        !v.after_gamepad_event(GamepadEvent::ButtonReleased(button_code(b)), age, now).button_down(b),
        v.gamepad.contains_key(button_index(b)) && v.gamepad[button_index(b)].0 == InputState::Down
            ==> v.after_gamepad_event(GamepadEvent::ButtonPressed(button_code(b)), age, now).gamepad[button_index(b)]
            == v.gamepad[button_index(b)],
{
}

/// A stick reads as moving in at most one of two opposite directions.
pub proof fn lemma_stick_directions_exclusive(v: InputManagerView)
    ensures
        !(v.stick_in_motion(Stick::LSUp) && v.stick_in_motion(Stick::LSDown)),
        !(v.stick_in_motion(Stick::LSLeft) && v.stick_in_motion(Stick::LSRight)),
        !(v.stick_in_motion(Stick::RSUp) && v.stick_in_motion(Stick::RSDown)),
        !(v.stick_in_motion(Stick::RSLeft) && v.stick_in_motion(Stick::RSRight)),
{
}

} // verus!
