use std::collections::HashMap;
use std::time::Instant;
use vstd::prelude::*;

use crate::clock::{duration_as_nanos, instant_elapsed, instant_now};
use crate::input::input_manager::{
    elapsed_millis, entry_down, entry_hold, later_reading, update_input_entry, updated_table,
    InputEntry,
    DEFAULT_HOLD_TIME_MILLIS,
};
use crate::input::types::{
    button_from_code, button_index, input_state_from_event, mouse_from_code, mouse_index, Button,
    Event, InputState, Key, Mouse,
};

verus! {

/// A hardware axis of a gamepad, as the first input tracker numbers the triggers.
#[derive(Clone, Copy, Debug, PartialEq, Eq, Hash, Structural)]
pub enum Axis {
    LeftStickX,
    LeftStickY,
    RightStickX,
    RightStickY,
    LeftTrigger,
    RightTrigger,
}

/// Raised when a gamepad event code names none of the known axes.
#[derive(Debug, Clone, Copy)]
pub struct AxisFromEvCodeError;

impl AxisFromEvCodeError {
    /// The error's human-readable description.
    pub fn message(&self) -> (r: &'static str)
        ensures
            r@ == "Failed to obtain GamepadAxis code from EvCode!"@,
    {
        "Failed to obtain GamepadAxis code from EvCode!"
    }
}

/// The axis that a gamepad event code stands for, if any.
pub open spec fn axis_from_code(code: u32) -> Option<Axis> {
    if code == 0 {
        Some(Axis::LeftStickX)
    } else if code == 1 {
        Some(Axis::LeftStickY)
    } else if code == 3 {
        Some(Axis::RightStickX)
    } else if code == 4 {
        Some(Axis::RightStickY)
    } else if code == 10 {
        Some(Axis::LeftTrigger)
    } else if code == 11 {
        Some(Axis::RightTrigger)
    } else {
        None
    }
}

impl TryFrom<u32> for Axis {
    type Error = AxisFromEvCodeError;

    fn try_from(code: u32) -> (r: Result<Self, Self::Error>) {
        match code {
            0 => Ok(Axis::LeftStickX),
            1 => Ok(Axis::LeftStickY),
            3 => Ok(Axis::RightStickX),
            4 => Ok(Axis::RightStickY),
            10 => Ok(Axis::LeftTrigger),
            11 => Ok(Axis::RightTrigger),
            _ => Err(AxisFromEvCodeError),
        }
    }
}

impl vstd::std_specs::convert::TryFromSpecImpl<u32> for Axis {
    open spec fn obeys_try_from_spec() -> bool {
        true
    }

    open spec fn try_from_spec(v: u32) -> Result<Self, Self::Error> {
        match axis_from_code(v) {
            Some(a) => Ok(a),
            None => Err(AxisFromEvCodeError),
        }
    }
}

/// The buttons that the first input tracker knows: all but the stick clicks.
pub open spec fn tracked_button_from_code(code: u32) -> Option<Button> {
    if code == 25 || code == 26 {
        None
    } else {
        button_from_code(code)
    }
}

/// A gamepad button report for the first input tracker.
#[derive(Clone, Copy, Debug, PartialEq, Eq, Structural)]
pub enum ButtonReport {
    Pressed(u32),
    Released(u32),
}

/// The gamepad table after a button report at `now`: a press puts a released or new button down;
/// a release puts a new or held button up but leaves a pressed one as it is.
pub open spec fn reported_button_table(
    table: Map<u32, InputEntry>,
    report: ButtonReport,
    now: u128,
) -> Map<u32, InputEntry> {
    match report {
        ButtonReport::Pressed(code) => match tracked_button_from_code(code) {
            None => table,
            Some(b) => {
                let k = button_index(b);
                if !table.contains_key(k) || table[k].0 == InputState::Up {
                    table.insert(k, (InputState::Down, now))
                } else {
                    table
                }
            },
        },
        ButtonReport::Released(code) => match tracked_button_from_code(code) {
            None => table,
            Some(b) => {
                let k = button_index(b);
                if table.contains_key(k) && table[k].0 == InputState::Down {
                    table
                } else {
                    table.insert(k, (InputState::Up, now))
                }
            },
        },
    }
}

/// The abstract state of an [`Input`].
pub struct InputView {
    pub keyboard: Map<u32, InputEntry>,
    pub mouse: Map<u32, InputEntry>,
    pub gamepad: Map<u32, InputEntry>,
    pub hold_time_millis: u128,
}

impl InputView {
    /// The state after a mouse button event (by raw button code) at `now`; unknown codes change
    /// nothing.
    pub open spec fn after_mouse_event(self, code: u32, event: Event, now: u128) -> InputView {
        match mouse_from_code(code) {
            Some(m) => InputView {
                mouse: updated_table(
                    self.mouse,
                    mouse_index(m),
                    input_state_from_event(event),
                    self.hold_time_millis,
                    now,
                ),
                ..self
            },
            None => self,
        }
    }

    /// The state after a gamepad button report at `now`.
    pub open spec fn after_button_report(self, report: ButtonReport, now: u128) -> InputView {
        InputView { gamepad: reported_button_table(self.gamepad, report, now), ..self }
    }

    pub open spec fn button_hold_at(self, button: Button, now: u128) -> bool {
        let k = button_index(button);
        &&& self.gamepad.contains_key(k)
        &&& self.gamepad[k].0 == InputState::Down
        &&& elapsed_millis(self.gamepad[k].1, now) > self.hold_time_millis
    }
}

/// The first input tracker: keys, mouse buttons and gamepad buttons.
pub struct Input {
    keyboard: HashMap<u32, InputEntry>,
    mouse: HashMap<u32, InputEntry>,
    gamepad: HashMap<u32, InputEntry>,
    hold_time_millis: u128,
    clock_origin: Instant,
    latest_reading: u128,
}

impl View for Input {
    type V = InputView;

    closed spec fn view(&self) -> InputView {
        InputView {
            keyboard: self.keyboard@,
            mouse: self.mouse@,
            gamepad: self.gamepad@,
            hold_time_millis: self.hold_time_millis,
        }
    }
}

impl Input {
    /// The latest clock reading that the tracker has recorded or read.
    pub closed spec fn latest_reading(&self) -> u128 {
        self.latest_reading
    }

    /// A tracker with nothing pressed and the given hold time (half a second by default).
    pub fn init(hold_time_millis: Option<u128>) -> (r: Self)
        ensures
            r@.keyboard.is_empty(),
            r@.mouse.is_empty(),
            r@.gamepad.is_empty(),
            r@.hold_time_millis == match hold_time_millis {
                Some(h) => h,
                None => DEFAULT_HOLD_TIME_MILLIS,
            },
            r.latest_reading() == 0,
    {
        let hold = match hold_time_millis {
            Some(h) => h,
            None => DEFAULT_HOLD_TIME_MILLIS,
        };
        Input {
            keyboard: HashMap::new(),
            mouse: HashMap::new(),
            gamepad: HashMap::new(),
            hold_time_millis: hold,
            clock_origin: instant_now(),
            latest_reading: 0,
        }
    }

    /// The clock reading now: nanoseconds since the tracker was made, on the same scale as the
    /// readings the tracker records, and never earlier than any of them (the clock is monotonic;
    /// a reading behind the latest recorded one is taken as that one).
    pub(crate) fn now(&self) -> (r: u128)
        ensures
            r >= self.latest_reading(),
    {
        let elapsed = instant_elapsed(&self.clock_origin);
        let reading = duration_as_nanos(&elapsed);
        if reading >= self.latest_reading {
            reading
        } else {
            self.latest_reading
        }
    }

    /// Records that clock reading `now` was seen.
    fn record_reading(&mut self, now: u128)
        ensures
            final(self)@ == old(self)@,
            final(self).latest_reading() == later_reading(old(self).latest_reading(), now),
    {
        if now > self.latest_reading {
            self.latest_reading = now;
        }
    }

    /// Records a key event at clock reading `now`.
    pub fn update_keyboard_input_at(&mut self, key: Key, event: Event, now: u128)
        ensures
            final(self)@ == (InputView {
                keyboard: updated_table(
                    old(self)@.keyboard,
                    key.code,
                    input_state_from_event(event),
                    old(self)@.hold_time_millis,
                    now,
                ),
                ..old(self)@
            }),
            final(self).latest_reading() == later_reading(old(self).latest_reading(), now),
    {
        let hold = self.hold_time_millis;
        update_input_entry(&mut self.keyboard, key.code, InputState::from(event), hold, now);
        self.record_reading(now);
    }

    /// Records a key event, reading the clock for the current time.
    pub fn update_keyboard_input(&mut self, key: Key, event: Event)
        ensures
            exists|now: u128|
                now >= old(self).latest_reading() && final(self).latest_reading() == now
                    && final(self)@ == (InputView {
                    keyboard: #[trigger] updated_table(
                        old(self)@.keyboard,
                        key.code,
                        input_state_from_event(event),
                        old(self)@.hold_time_millis,
                        now,
                    ),
                    ..old(self)@
                }),
    {
        let now = self.now();
        self.update_keyboard_input_at(key, event, now);
    }

    /// Records a mouse button event (by raw button code) at clock reading `now`; unknown codes
    /// are ignored.
    pub fn update_mouse_input_at(&mut self, code: u32, event: Event, now: u128)
        ensures
            final(self)@ == old(self)@.after_mouse_event(code, event, now),
            final(self).latest_reading() == later_reading(old(self).latest_reading(), now),
    {
        if let Ok(button) = Mouse::try_from(code) {
            let hold = self.hold_time_millis;
            update_input_entry(&mut self.mouse, button.index(), InputState::from(event), hold, now);
        }
        self.record_reading(now);
    }

    /// Records a mouse button event (by raw button code), reading the clock for the current time.
    pub fn update_mouse_input(&mut self, code: u32, event: Event)
        ensures
            exists|now: u128|
                now >= old(self).latest_reading() && final(self).latest_reading() == now
                    && final(self)@ == #[trigger] old(self)@.after_mouse_event(code, event, now),
    {
        let now = self.now();
        self.update_mouse_input_at(code, event, now);
    }

    /// Records a gamepad button report at clock reading `now`.
    pub fn update_gamepad_button_at(&mut self, report: ButtonReport, now: u128)
        ensures
            final(self)@ == old(self)@.after_button_report(report, now),
            final(self).latest_reading() == later_reading(old(self).latest_reading(), now),
    {
        self.record_reading(now);
        let (code, pressed) = match report {
            ButtonReport::Pressed(c) => (c, true),
            ButtonReport::Released(c) => (c, false),
        };
        if code == 25 || code == 26 {
            return ;
        }
        if let Ok(button) = Button::try_from(code) {
            let k = button.index();
            let current = match self.gamepad.get(&k) {
                Some(e) => Some(e.0),
                None => None,
            };
            if pressed {
                match current {
                    None => {
                        self.gamepad.insert(k, (InputState::Down, now));
                    },
                    Some(InputState::Up) => {
                        self.gamepad.insert(k, (InputState::Down, now));
                    },
                    Some(_) => {},
                }
            } else {
                match current {
                    Some(InputState::Down) => {},
                    _ => {
                        self.gamepad.insert(k, (InputState::Up, now));
                    },
                }
            }
        }
    }

    /// Records a gamepad button report, reading the clock for the current time.
    pub fn update_gamepad_button(&mut self, report: ButtonReport)
        ensures
            exists|now: u128|
                now >= old(self).latest_reading() && final(self).latest_reading() == now
                    && final(self)@ == #[trigger] old(self)@.after_button_report(report, now),
    {
        let now = self.now();
        self.update_gamepad_button_at(report, now);
    }

    pub fn is_key_down(&self, key: Key) -> (r: bool)
        ensures
            r == entry_down(self@.keyboard, key.code),
    {
        match self.keyboard.get(&key.code) {
            Some(e) => e.0 != InputState::Up,
            None => false,
        }
    }

    pub fn is_key_hold(&self, key: Key) -> (r: bool)
        ensures
            r == entry_hold(self@.keyboard, key.code),
    {
        match self.keyboard.get(&key.code) {
            Some(e) => e.0 == InputState::Hold,
            None => false,
        }
    }

    pub fn is_mouse_down(&self, button: Mouse) -> (r: bool)
        ensures
            r == entry_down(self@.mouse, mouse_index(button)),
    {
        match self.mouse.get(&button.index()) {
            Some(e) => e.0 != InputState::Up,
            None => false,
        }
    }

    pub fn is_mouse_hold(&self, button: Mouse) -> (r: bool)
        ensures
            r == entry_hold(self@.mouse, mouse_index(button)),
    {
        match self.mouse.get(&button.index()) {
            Some(e) => e.0 == InputState::Hold,
            None => false,
        }
    }

    pub fn is_button_down(&self, button: Button) -> (r: bool)
        ensures
            r == entry_down(self@.gamepad, button_index(button)),
    {
        match self.gamepad.get(&button.index()) {
            Some(e) => e.0 != InputState::Up,
            None => false,
        }
    }

    /// Whether the gamepad button has been down for longer than the hold time at clock reading
    /// `now`.
    pub fn is_button_hold_at(&self, button: Button, now: u128) -> (r: bool)
        ensures
            r == self@.button_hold_at(button, now),
    {
        match self.gamepad.get(&button.index()) {
            Some(e) => {
                if e.0 == InputState::Down {
                    let elapsed: u128 = if now >= e.1 {
                        (now - e.1) / 1_000_000
                    } else {
                        0
                    };
                    elapsed > self.hold_time_millis
                } else {
                    false
                }
            },
            None => false,
        }
    }

    /// Whether the gamepad button has been down for longer than the hold time, reading the clock
    /// for the current time.
    pub fn is_button_hold(&self, button: Button) -> (r: bool)
        ensures
            exists|now: u128|
                now >= self.latest_reading() && r == #[trigger] self@.button_hold_at(button, now),
    {
        let now = self.now();
        self.is_button_hold_at(button, now)
    }
}

/// In the first tracker, a button that is not down and is reported pressed at reading `t` is
/// held at a later reading `t2` exactly when more than the hold time, in whole milliseconds, has
/// passed since `t`.
pub proof fn lemma_press_then_hold(v: InputView, b: Button, t: u128, t2: u128)
    requires
        b != Button::LeftStick,
        b != Button::RightStick,
        !entry_down(v.gamepad, button_index(b)),
        t <= t2,
    ensures
        v.after_button_report(ButtonReport::Pressed(crate::input::types::button_code(b)), t).button_hold_at(
            b,
            t2,
        ) <==> (t2 - t) / 1_000_000 > v.hold_time_millis,
{
}

/// In the first tracker a release leaves a button that is down as it is (only new or held buttons
/// are put up), and a press always leaves the button down.
pub proof fn lemma_release_keeps_down_buttons(table: Map<u32, InputEntry>, b: Button, now: u128)
    requires
        b != Button::LeftStick,
        b != Button::RightStick,
    ensures
        entry_down(table, button_index(b)) && table[button_index(b)].0 == InputState::Down
            ==> reported_button_table(
            table,
            ButtonReport::Released(crate::input::types::button_code(b)),
            now,
        ) == table,
        entry_down(
            reported_button_table(table, ButtonReport::Pressed(crate::input::types::button_code(b)), now),
            button_index(b),
        ),
{
}

} // verus!
