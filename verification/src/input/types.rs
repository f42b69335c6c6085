use vstd::prelude::*;

verus! {

/// Press/release information delivered with a key or mouse button event.
#[derive(Clone, Copy, Debug, PartialEq, Eq, Structural)]
pub enum Event {
    Pressed,
    Released,
}

/// The tracked state of a digital input.
#[derive(Clone, Copy, Debug, PartialEq, Eq, Structural)]
pub enum InputState {
    Up,
    Down,
    Hold,
}

/// What a press/release event means for an input: pressed inputs go down, released ones go up.
pub open spec fn input_state_from_event(event: Event) -> InputState {
    match event {
        Event::Pressed => InputState::Down,
        Event::Released => InputState::Up,
    }
}

impl From<Event> for InputState {
    fn from(event: Event) -> (r: Self) {
        match event {
            Event::Pressed => InputState::Down,
            Event::Released => InputState::Up,
        }
    }
}

impl vstd::std_specs::convert::FromSpecImpl<Event> for InputState {
    open spec fn obeys_from_spec() -> bool {
        true
    }

    open spec fn from_spec(v: Event) -> InputState {
        input_state_from_event(v)
    }
}

/// Virtual key codes of the keys that the library's bindings and the main loop name.
pub const KEY_A: u32 = 10;
pub const KEY_D: u32 = 13;
pub const KEY_S: u32 = 28;
pub const KEY_W: u32 = 32;
pub const KEY_ESCAPE: u32 = 36;
pub const KEY_LEFT: u32 = 70;
pub const KEY_UP: u32 = 71;
pub const KEY_RIGHT: u32 = 72;
pub const KEY_DOWN: u32 = 73;
pub const KEY_LSHIFT: u32 = 118;
pub const KEY_RSHIFT: u32 = 139;

/// A keyboard key, identified by its virtual key code (the position of the key in the
/// windowing system's virtual key code list).
#[derive(Clone, Copy, Debug, PartialEq, Eq, Hash, Structural)]
pub struct Key {
    pub code: u32,
}

impl Key {
    /// The key with the given virtual key code.
    pub fn from_code(code: u32) -> (k: Key)
        ensures
            k.code == code,
    {
        Key { code }
    }
}


/// A mouse button; the scroll wheel's two directions count as buttons too.
#[derive(Clone, Copy, Debug, PartialEq, Eq, Hash, Structural)]
pub enum Mouse {
    LMB,
    MMB,
    RMB,
    ScrollUp,
    ScrollDown,
}

/// Raised when a raw mouse button code names none of the known buttons.
#[derive(Debug, Clone, Copy)]
pub struct MouseFromU32Error;

impl MouseFromU32Error {
    /// The error's human-readable description.
    pub fn message(&self) -> (r: &'static str)
        ensures
            r@ == "Failed to obtain MouseButton code from u32!"@,
    {
        "Failed to obtain MouseButton code from u32!"
    }
}

/// The button that a raw mouse button code stands for, if any.
pub open spec fn mouse_from_code(code: u32) -> Option<Mouse> {
    if code == 1 {
        Some(Mouse::LMB)
    } else if code == 2 {
        Some(Mouse::MMB)
    } else if code == 3 {
        Some(Mouse::RMB)
    } else {
        None
    }
}

/// Position of a mouse button in the button table.
pub open spec fn mouse_index(m: Mouse) -> u32 {
    match m {
        Mouse::LMB => 0,
        Mouse::MMB => 1,
        Mouse::RMB => 2,
        Mouse::ScrollUp => 3,
        Mouse::ScrollDown => 4,
    }
}

impl Mouse {
    /// Position of the button in the button table.
    pub fn index(self) -> (r: u32)
        ensures
            r == mouse_index(self),
    {
        match self {
            Mouse::LMB => 0,
            Mouse::MMB => 1,
            Mouse::RMB => 2,
            Mouse::ScrollUp => 3,
            Mouse::ScrollDown => 4,
        }
    }

    /// Whether the button is one of the scroll wheel's directions.
    pub open spec fn is_scroll(self) -> bool {
        self == Mouse::ScrollUp || self == Mouse::ScrollDown
    }
}

impl TryFrom<u32> for Mouse {
    type Error = MouseFromU32Error;

    fn try_from(code: u32) -> (r: Result<Self, Self::Error>) {
        match code {
            1 => Ok(Mouse::LMB),
            2 => Ok(Mouse::MMB),
            3 => Ok(Mouse::RMB),
            _ => Err(MouseFromU32Error),
        }
    }
}

impl vstd::std_specs::convert::TryFromSpecImpl<u32> for Mouse {
    open spec fn obeys_try_from_spec() -> bool {
        true
    }

    open spec fn try_from_spec(v: u32) -> Result<Self, Self::Error> {
        match mouse_from_code(v) {
            Some(m) => Ok(m),
            None => Err(MouseFromU32Error),
        }
    }
}

/// A direction of mouse movement.
#[derive(Clone, Copy, Debug, PartialEq, Eq, Hash, Structural)]
pub enum MouseMotion {
    YUp,
    YDown,
    XLeft,
    XRight,
}

/// A direction of one of the two analog sticks.
#[derive(Clone, Copy, Debug, PartialEq, Eq, Hash, Structural)]
pub enum Stick {
    LSUp,
    LSDown,
    LSLeft,
    LSRight,
    RSUp,
    RSDown,
    RSLeft,
    RSRight,
}

/// One of the two analog triggers.
#[derive(Clone, Copy, Debug, PartialEq, Eq, Hash, Structural)]
pub enum Trigger {
    LT,
    RT,
}

/// A hardware axis of a gamepad.
#[derive(Clone, Copy, Debug, PartialEq, Eq, Hash, Structural)]
pub enum HwAxis {
    LeftStickX,
    LeftStickY,
    RightStickX,
    RightStickY,
    LeftTrigger,
    RightTrigger,
}

/// Raised when a gamepad event code names none of the known axes.
#[derive(Debug, Clone, Copy)]
pub struct HwAxisFromEvCodeError;

impl HwAxisFromEvCodeError {
    /// The error's human-readable description.
    pub fn message(&self) -> (r: &'static str)
        ensures
            r@ == "Failed to obtain GamepadAxis code from EvCode!"@,
    {
        "Failed to obtain GamepadAxis code from EvCode!"
    }
}

/// The axis that a gamepad event code stands for, if any.
pub open spec fn hw_axis_from_code(code: u32) -> Option<HwAxis> {
    if code == 0 {
        Some(HwAxis::LeftStickX)
    } else if code == 1 {
        Some(HwAxis::LeftStickY)
    } else if code == 3 {
        Some(HwAxis::RightStickX)
    } else if code == 4 {
        Some(HwAxis::RightStickY)
    } else if code == 10 {
        Some(HwAxis::RightTrigger)
    } else if code == 11 {
        Some(HwAxis::LeftTrigger)
    } else {
        None
    }
}

/// The gamepad event code of an axis.
pub open spec fn hw_axis_code(axis: HwAxis) -> u32 {
    match axis {
        HwAxis::LeftStickX => 0,
        HwAxis::LeftStickY => 1,
        HwAxis::RightStickX => 3,
        HwAxis::RightStickY => 4,
        HwAxis::RightTrigger => 10,
        HwAxis::LeftTrigger => 11,
    }
}

/// Position of an axis in the axis table.
pub open spec fn hw_axis_index(axis: HwAxis) -> u32 {
    match axis {
        HwAxis::LeftStickX => 0,
        HwAxis::LeftStickY => 1,
        HwAxis::RightStickX => 2,
        HwAxis::RightStickY => 3,
        HwAxis::LeftTrigger => 4,
        HwAxis::RightTrigger => 5,
    }
}

impl HwAxis {
    /// Position of the axis in the axis table.
    pub fn index(self) -> (r: u32)
        ensures
            r == hw_axis_index(self),
    {
        match self {
            HwAxis::LeftStickX => 0,
            HwAxis::LeftStickY => 1,
            HwAxis::RightStickX => 2,
            HwAxis::RightStickY => 3,
            HwAxis::LeftTrigger => 4,
            HwAxis::RightTrigger => 5,
        }
    }
}

impl TryFrom<u32> for HwAxis {
    type Error = HwAxisFromEvCodeError;

    fn try_from(code: u32) -> (r: Result<Self, Self::Error>) {
        match code {
            0 => Ok(HwAxis::LeftStickX),
            1 => Ok(HwAxis::LeftStickY),
            3 => Ok(HwAxis::RightStickX),
            4 => Ok(HwAxis::RightStickY),
            10 => Ok(HwAxis::RightTrigger),
            11 => Ok(HwAxis::LeftTrigger),
            _ => Err(HwAxisFromEvCodeError),
        }
    }
}

impl vstd::std_specs::convert::TryFromSpecImpl<u32> for HwAxis {
    open spec fn obeys_try_from_spec() -> bool {
        true
    }

    open spec fn try_from_spec(v: u32) -> Result<Self, Self::Error> {
        match hw_axis_from_code(v) {
            Some(a) => Ok(a),
            None => Err(HwAxisFromEvCodeError),
        }
    }
}

/// A digital gamepad button.
#[derive(Clone, Copy, Debug, PartialEq, Eq, Hash, Structural)]
pub enum Button {
    DPadUp,
    DPadDown,
    DPadLeft,
    DPadRight,
    North,
    South,
    East,
    West,
    LeftBumper,
    RightBumper,
    Select,
    Start,
    LeftStick,
    RightStick,
}

/// Raised when a gamepad event code names none of the known buttons.
#[derive(Debug, Clone, Copy)]
pub struct ButtonFromEvCodeError;

impl ButtonFromEvCodeError {
    /// The error's human-readable description.
    pub fn message(&self) -> (r: &'static str)
        ensures
            r@ == "Failed to obtain Button code from EvCode!"@,
    {
        "Failed to obtain Button code from EvCode!"
    }
}

/// The button that a gamepad event code stands for, if any.
pub open spec fn button_from_code(code: u32) -> Option<Button> {
    if code == 27 {
        Some(Button::DPadUp)
    } else if code == 28 {
        Some(Button::DPadDown)
    } else if code == 29 {
        Some(Button::DPadLeft)
    } else if code == 30 {
        Some(Button::DPadRight)
    } else if code == 15 {
        Some(Button::North)
    } else if code == 12 {
        Some(Button::South)
    } else if code == 16 {
        Some(Button::East)
    } else if code == 13 {
        Some(Button::West)
    } else if code == 18 {
        Some(Button::LeftBumper)
    } else if code == 19 {
        Some(Button::RightBumper)
    } else if code == 22 {
        Some(Button::Select)
    } else if code == 23 {
        Some(Button::Start)
    } else if code == 25 {
        Some(Button::LeftStick)
    } else if code == 26 {
        Some(Button::RightStick)
    } else {
        None
    }
}

/// The gamepad event code of a button.
pub open spec fn button_code(b: Button) -> u32 {
    match b {
        Button::DPadUp => 27,
        Button::DPadDown => 28,
        Button::DPadLeft => 29,
        Button::DPadRight => 30,
        Button::North => 15,
        Button::South => 12,
        Button::East => 16,
        Button::West => 13,
        Button::LeftBumper => 18,
        Button::RightBumper => 19,
        Button::Select => 22,
        Button::Start => 23,
        Button::LeftStick => 25,
        Button::RightStick => 26,
    }
}

/// Position of a button in the button table.
pub open spec fn button_index(b: Button) -> u32 {
    match b {
        Button::DPadUp => 0,
        Button::DPadDown => 1,
        Button::DPadLeft => 2,
        Button::DPadRight => 3,
        Button::North => 4,
        Button::South => 5,
        Button::East => 6,
        Button::West => 7,
        Button::LeftBumper => 8,
        Button::RightBumper => 9,
        Button::Select => 10,
        Button::Start => 11,
        Button::LeftStick => 12,
        Button::RightStick => 13,
    }
}

impl Button {
    /// Position of the button in the button table.
    pub fn index(self) -> (r: u32)
        ensures
            r == button_index(self),
    {
        match self {
            Button::DPadUp => 0,
            Button::DPadDown => 1,
            Button::DPadLeft => 2,
            Button::DPadRight => 3,
            Button::North => 4,
            Button::South => 5,
            Button::East => 6,
            Button::West => 7,
            Button::LeftBumper => 8,
            Button::RightBumper => 9,
            Button::Select => 10,
            Button::Start => 11,
            Button::LeftStick => 12,
            Button::RightStick => 13,
        }
    }
}

impl TryFrom<u32> for Button {
    type Error = ButtonFromEvCodeError;

    fn try_from(code: u32) -> (r: Result<Self, Self::Error>) {
        match code {
            27 => Ok(Button::DPadUp),
            28 => Ok(Button::DPadDown),
            29 => Ok(Button::DPadLeft),
            30 => Ok(Button::DPadRight),
            15 => Ok(Button::North),
            12 => Ok(Button::South),
            16 => Ok(Button::East),
            13 => Ok(Button::West),
            18 => Ok(Button::LeftBumper),
            19 => Ok(Button::RightBumper),
            22 => Ok(Button::Select),
            23 => Ok(Button::Start),
            25 => Ok(Button::LeftStick),
            26 => Ok(Button::RightStick),
            _ => Err(ButtonFromEvCodeError),
        }
    }
}

impl vstd::std_specs::convert::TryFromSpecImpl<u32> for Button {
    open spec fn obeys_try_from_spec() -> bool {
        true
    }

    open spec fn try_from_spec(v: u32) -> Result<Self, Self::Error> {
        match button_from_code(v) {
            Some(b) => Ok(b),
            None => Err(ButtonFromEvCodeError),
        }
    }
}


/// Every button is named by exactly one event code: decoding a button's code gives the button
/// back, and a code that decodes to a button is that button's code.
pub proof fn lemma_button_code_roundtrip(b: Button, code: u32)
    ensures
        button_from_code(button_code(b)) == Some(b),
        button_from_code(code) == Some(b) ==> button_code(b) == code,
{
}

/// Every axis is named by exactly one event code: decoding an axis's code gives the axis back,
/// and a code that decodes to an axis is that axis's code.
pub proof fn lemma_hw_axis_code_roundtrip(axis: HwAxis, code: u32)
    ensures
        hw_axis_from_code(hw_axis_code(axis)) == Some(axis),
        hw_axis_from_code(code) == Some(axis) ==> hw_axis_code(axis) == code,
{
}

/// Raw mouse button codes only ever name the three physical buttons, never a scroll direction.
pub proof fn lemma_mouse_codes_name_physical_buttons(code: u32)
    ensures
        mouse_from_code(code) matches Some(m) ==> !m.is_scroll(),
        mouse_from_code(code) is Some <==> 1 <= code <= 3,
{
}

/// A keyboard-and-mouse input that an action can be bound to.
#[derive(Clone, Copy, Debug, PartialEq, Eq, Hash, Structural)]
pub enum KeyboardMouseInput {
    Key(Key),
    Mouse(Mouse),
    MouseMotion(MouseMotion),
}

/// A gamepad input that an action can be bound to.
#[derive(Clone, Copy, Debug, PartialEq, Eq, Hash, Structural)]
pub enum GamepadInput {
    Button(Button),
    Stick(Stick),
    Trigger(Trigger),
}

/// The kind of device the player used last.
#[derive(Clone, Copy, Debug, PartialEq, Eq, Structural)]
pub enum InputMode {
    KBM,
    Gamepad,
}

/// The sign of an analog reading (a mouse delta, a scroll delta or a gamepad axis offset).
#[derive(Clone, Copy, Debug, PartialEq, Eq, Structural)]
pub enum Sign {
    Negative,
    Zero,
    Positive,
}

/// Up to two keyboard-and-mouse inputs and two gamepad inputs that trigger one action.
#[derive(Clone, Copy, Debug)]
pub struct ActionBindings {
    pub kbm: Option<KeyboardMouseInput>,
    pub kbm_alt: Option<KeyboardMouseInput>,
    pub gamepad: Option<GamepadInput>,
    pub gamepad_alt: Option<GamepadInput>,
}

impl ActionBindings {
    /// Bindings with no input bound yet.
    pub fn builder() -> (r: Self)
        ensures
            r.kbm is None,
            r.kbm_alt is None,
            r.gamepad is None,
            r.gamepad_alt is None,
    {
        ActionBindings { kbm: None, kbm_alt: None, gamepad: None, gamepad_alt: None }
    }

    /// Binds the primary keyboard-and-mouse input.
    pub fn kbm(self, kbm: KeyboardMouseInput) -> (r: Self)
        ensures
            r == (ActionBindings { kbm: Some(kbm), ..self }),
    {
        let mut s = self;
        s.kbm = Some(kbm);
        s
    }

    /// Binds the alternative keyboard-and-mouse input.
    pub fn kbm_alt(self, kbm: KeyboardMouseInput) -> (r: Self)
        ensures
            r == (ActionBindings { kbm_alt: Some(kbm), ..self }),
    {
        let mut s = self;
        s.kbm_alt = Some(kbm);
        s
    }

    /// Binds the primary gamepad input.
    pub fn gamepad(self, gamepad: GamepadInput) -> (r: Self)
        ensures
            r == (ActionBindings { gamepad: Some(gamepad), ..self }),
    {
        let mut s = self;
        s.gamepad = Some(gamepad);
        s
    }

    /// Binds the alternative gamepad input.
    pub fn gamepad_alt(self, gamepad: GamepadInput) -> (r: Self)
        ensures
            r == (ActionBindings { gamepad_alt: Some(gamepad), ..self }),
    {
        let mut s = self;
        s.gamepad_alt = Some(gamepad);
        s
    }

    /// The gamepad bindings, primary first.
    pub fn get_gamepad_bindings(&self) -> (r: [Option<GamepadInput>; 2])
        ensures
            r@ == seq![self.gamepad, self.gamepad_alt],
    {
        [self.gamepad, self.gamepad_alt]
    }

    /// The keyboard-and-mouse bindings, primary first.
    pub fn get_kbm_bindings(&self) -> (r: [Option<KeyboardMouseInput>; 2])
        ensures
            r@ == seq![self.kbm, self.kbm_alt],
    {
        [self.kbm, self.kbm_alt]
    }
}

} // verus!
