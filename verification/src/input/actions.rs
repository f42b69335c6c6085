use vstd::prelude::*;

use crate::input::input_manager::{DeviceEvent, InputManager, InputManagerView};
use crate::input::types::{
    ActionBindings, Button, Event, GamepadInput, InputMode, Key, KeyboardMouseInput, MouseMotion, Stick,
    KEY_A, KEY_D, KEY_DOWN, KEY_LEFT, KEY_LSHIFT, KEY_RIGHT, KEY_RSHIFT, KEY_S, KEY_UP, KEY_W,
};

verus! {

/// The actions of the main menu.
#[derive(Clone, Copy, Debug, Hash, Eq, PartialEq, Structural)]
pub enum MainMenuActions {
    Up,
    Down,
    Left,
    Right,
}

/// The actions of the game itself.
#[derive(Clone, Copy, Debug, Hash, Eq, PartialEq, Structural)]
pub enum InGameActions {
    Forward,
    Backward,
    Left,
    Right,
    LookUp,
    LookDown,
    LookLeft,
    LookRight,
    Sprint,
}

/// The contexts in which actions can be active.
#[derive(Clone, Copy, Debug, Hash, Eq, PartialEq, Structural)]
pub enum ActionContexts {
    MainMenu,
    InGame,
}

pub open spec fn main_menu_action_index(a: MainMenuActions) -> int {
    match a {
        MainMenuActions::Up => 0,
        MainMenuActions::Down => 1,
        MainMenuActions::Left => 2,
        MainMenuActions::Right => 3,
    }
}

pub open spec fn in_game_action_index(a: InGameActions) -> int {
    match a {
        InGameActions::Forward => 0,
        InGameActions::Backward => 1,
        InGameActions::Left => 2,
        InGameActions::Right => 3,
        InGameActions::LookUp => 4,
        InGameActions::LookDown => 5,
        InGameActions::LookLeft => 6,
        InGameActions::LookRight => 7,
        InGameActions::Sprint => 8,
    }
}

/// Bindings with one gamepad input and one keyboard-and-mouse input.
pub open spec fn pair_binding(gamepad: GamepadInput, kbm: KeyboardMouseInput) -> ActionBindings {
    ActionBindings { kbm: Some(kbm), kbm_alt: None, gamepad: Some(gamepad), gamepad_alt: None }
}

/// The input bound to each main menu action: the d-pad or the arrow keys.
pub open spec fn main_menu_binding(a: MainMenuActions) -> ActionBindings {
    match a {
        MainMenuActions::Up => pair_binding(
            GamepadInput::Button(Button::DPadUp),
            KeyboardMouseInput::Key(Key { code: KEY_UP }),
        ),
        MainMenuActions::Down => pair_binding(
            GamepadInput::Button(Button::DPadDown),
            KeyboardMouseInput::Key(Key { code: KEY_DOWN }),
        ),
        MainMenuActions::Left => pair_binding(
            GamepadInput::Button(Button::DPadLeft),
            KeyboardMouseInput::Key(Key { code: KEY_LEFT }),
        ),
        MainMenuActions::Right => pair_binding(
            GamepadInput::Button(Button::DPadRight),
            KeyboardMouseInput::Key(Key { code: KEY_RIGHT }),
        ),
    }
}

/// The input bound to each in-game action: the left stick or WASD to move, the right stick or
/// the mouse to look around, and the left bumper or either shift key to sprint.
pub open spec fn in_game_binding(a: InGameActions) -> ActionBindings {
    match a {
        InGameActions::Forward => pair_binding(
            GamepadInput::Stick(Stick::LSUp),
            KeyboardMouseInput::Key(Key { code: KEY_W }),
        ),
        InGameActions::Backward => pair_binding(
            GamepadInput::Stick(Stick::LSDown),
            KeyboardMouseInput::Key(Key { code: KEY_S }),
        ),
        InGameActions::Left => pair_binding(
            GamepadInput::Stick(Stick::LSLeft),
            KeyboardMouseInput::Key(Key { code: KEY_A }),
        ),
        InGameActions::Right => pair_binding(
            GamepadInput::Stick(Stick::LSRight),
            KeyboardMouseInput::Key(Key { code: KEY_D }),
        ),
        InGameActions::LookUp => pair_binding(
            GamepadInput::Stick(Stick::RSUp),
            KeyboardMouseInput::MouseMotion(MouseMotion::YUp),
        ),
        InGameActions::LookDown => pair_binding(
            GamepadInput::Stick(Stick::RSDown),
            KeyboardMouseInput::MouseMotion(MouseMotion::YDown),
        ),
        InGameActions::LookLeft => pair_binding(
            GamepadInput::Stick(Stick::RSLeft),
            KeyboardMouseInput::MouseMotion(MouseMotion::XLeft),
        ),
        InGameActions::LookRight => pair_binding(
            GamepadInput::Stick(Stick::RSRight),
            KeyboardMouseInput::MouseMotion(MouseMotion::XRight),
        ),
        InGameActions::Sprint => ActionBindings {
            kbm: Some(KeyboardMouseInput::Key(Key { code: KEY_LSHIFT })),
            kbm_alt: Some(KeyboardMouseInput::Key(Key { code: KEY_RSHIFT })),
            gamepad: Some(GamepadInput::Button(Button::LeftBumper)),
            gamepad_alt: None,
        },
    }
}

/// Whether a keyboard-and-mouse input reads as down.
pub open spec fn kb_input_down(v: InputManagerView, input: KeyboardMouseInput) -> bool {
    match input {
        KeyboardMouseInput::Key(key) => v.key_down(key),
        KeyboardMouseInput::Mouse(m) => v.mouse_down(m),
        KeyboardMouseInput::MouseMotion(mm) => v.mouse_in_motion(mm),
    }
}

/// Whether a gamepad input reads as down.
pub open spec fn gp_input_down(v: InputManagerView, input: GamepadInput) -> bool {
    match input {
        GamepadInput::Button(b) => v.button_down(b),
        GamepadInput::Stick(s) => v.stick_in_motion(s),
        GamepadInput::Trigger(t) => v.trigger_active(t),
    }
}

/// Whether a keyboard-and-mouse input reads as held (mouse motion counts while it lasts).
pub open spec fn kb_input_hold(v: InputManagerView, input: KeyboardMouseInput) -> bool {
    match input {
        KeyboardMouseInput::Key(key) => v.key_hold(key),
        KeyboardMouseInput::Mouse(m) => v.mouse_hold(m),
        KeyboardMouseInput::MouseMotion(mm) => v.mouse_in_motion(mm),
    }
}

/// Whether a gamepad input reads as held at `now` (sticks and triggers count while they are
/// pushed).
pub open spec fn gp_input_hold_at(v: InputManagerView, input: GamepadInput, now: u128) -> bool {
    match input {
        GamepadInput::Button(b) => v.button_hold_at(b, now),
        GamepadInput::Stick(s) => v.stick_in_motion(s),
        GamepadInput::Trigger(t) => v.trigger_active(t),
    }
}

/// Whether some bound input of the current input mode reads as down.
pub open spec fn binding_down(v: InputManagerView, b: ActionBindings) -> bool {
    match v.mode {
        InputMode::KBM => {
            ||| b.kbm matches Some(i) && kb_input_down(v, i)
            ||| b.kbm_alt matches Some(i) && kb_input_down(v, i)
        },
        InputMode::Gamepad => {
            ||| b.gamepad matches Some(i) && gp_input_down(v, i)
            ||| b.gamepad_alt matches Some(i) && gp_input_down(v, i)
        },
    }
}

/// Whether some bound input of the current input mode reads as held at `now`.
pub open spec fn binding_hold_at(v: InputManagerView, b: ActionBindings, now: u128) -> bool {
    match v.mode {
        InputMode::KBM => {
            ||| b.kbm matches Some(i) && kb_input_hold(v, i)
            ||| b.kbm_alt matches Some(i) && kb_input_hold(v, i)
        },
        InputMode::Gamepad => {
            ||| b.gamepad matches Some(i) && gp_input_hold_at(v, i, now)
            ||| b.gamepad_alt matches Some(i) && gp_input_hold_at(v, i, now)
        },
    }
}

/// The actions of every context with their bindings, and the set of active contexts.
pub struct InputActions {
    main_menu_active: bool,
    in_game_active: bool,
    main_menu: Vec<ActionBindings>,
    in_game: Vec<ActionBindings>,
}

impl InputActions {
    #[verifier::type_invariant]
    spec fn bindings_are_the_defaults(self) -> bool {
        &&& self.main_menu@.len() == 4
        &&& self.in_game@.len() == 9
        &&& forall|a: MainMenuActions| #[trigger]
            self.main_menu@[main_menu_action_index(a)] == main_menu_binding(a)
        &&& forall|a: InGameActions| #[trigger]
            self.in_game@[in_game_action_index(a)] == in_game_binding(a)
    }

    /// Whether the context is active.
    pub closed spec fn context_active(self, ctx: ActionContexts) -> bool {
        match ctx {
            ActionContexts::MainMenu => self.main_menu_active,
            ActionContexts::InGame => self.in_game_active,
        }
    }

    /// The bindings of every action, with no context active.
    pub fn init() -> (r: Self)
        ensures
            forall|c: ActionContexts| !r.context_active(c),
    {
        let mut main_menu: Vec<ActionBindings> = Vec::new();
        main_menu.push(
            ActionBindings::builder().gamepad(GamepadInput::Button(Button::DPadUp)).kbm(
                KeyboardMouseInput::Key(Key::from_code(KEY_UP)),
            ),
        );
        main_menu.push(
            ActionBindings::builder().gamepad(GamepadInput::Button(Button::DPadDown)).kbm(
                KeyboardMouseInput::Key(Key::from_code(KEY_DOWN)),
            ),
        );
        main_menu.push(
            ActionBindings::builder().gamepad(GamepadInput::Button(Button::DPadLeft)).kbm(
                KeyboardMouseInput::Key(Key::from_code(KEY_LEFT)),
            ),
        );
        main_menu.push(
            ActionBindings::builder().gamepad(GamepadInput::Button(Button::DPadRight)).kbm(
                KeyboardMouseInput::Key(Key::from_code(KEY_RIGHT)),
            ),
        );
        let mut in_game: Vec<ActionBindings> = Vec::new();
        in_game.push(
            ActionBindings::builder().gamepad(GamepadInput::Stick(Stick::LSUp)).kbm(
                KeyboardMouseInput::Key(Key::from_code(KEY_W)),
            ),
        );
        in_game.push(
            ActionBindings::builder().gamepad(GamepadInput::Stick(Stick::LSDown)).kbm(
                KeyboardMouseInput::Key(Key::from_code(KEY_S)),
            ),
        );
        in_game.push(
            ActionBindings::builder().gamepad(GamepadInput::Stick(Stick::LSLeft)).kbm(
                KeyboardMouseInput::Key(Key::from_code(KEY_A)),
            ),
        );
        in_game.push(
            ActionBindings::builder().gamepad(GamepadInput::Stick(Stick::LSRight)).kbm(
                KeyboardMouseInput::Key(Key::from_code(KEY_D)),
            ),
        );
        in_game.push(
            ActionBindings::builder().gamepad(GamepadInput::Stick(Stick::RSUp)).kbm(
                KeyboardMouseInput::MouseMotion(MouseMotion::YUp),
            ),
        );
        in_game.push(
            ActionBindings::builder().gamepad(GamepadInput::Stick(Stick::RSDown)).kbm(
                KeyboardMouseInput::MouseMotion(MouseMotion::YDown),
            ),
        );
        in_game.push(
            ActionBindings::builder().gamepad(GamepadInput::Stick(Stick::RSLeft)).kbm(
                KeyboardMouseInput::MouseMotion(MouseMotion::XLeft),
            ),
        );
        in_game.push(
            ActionBindings::builder().gamepad(GamepadInput::Stick(Stick::RSRight)).kbm(
                KeyboardMouseInput::MouseMotion(MouseMotion::XRight),
            ),
        );
        in_game.push(
            ActionBindings::builder().gamepad(GamepadInput::Button(Button::LeftBumper)).kbm(
                KeyboardMouseInput::Key(Key::from_code(KEY_LSHIFT)),
            ).kbm_alt(KeyboardMouseInput::Key(Key::from_code(KEY_RSHIFT))),
        );
        proof {
            assert forall|a: MainMenuActions| #[trigger]
                main_menu@[main_menu_action_index(a)] == main_menu_binding(a) by {
                match a {
                    MainMenuActions::Up => {},
                    MainMenuActions::Down => {},
                    MainMenuActions::Left => {},
                    MainMenuActions::Right => {},
                }
            }
            assert forall|a: InGameActions| #[trigger]
                in_game@[in_game_action_index(a)] == in_game_binding(a) by {
                match a {
                    InGameActions::Forward => {},
                    InGameActions::Backward => {},
                    InGameActions::Left => {},
                    InGameActions::Right => {},
                    InGameActions::LookUp => {},
                    InGameActions::LookDown => {},
                    InGameActions::LookLeft => {},
                    InGameActions::LookRight => {},
                    InGameActions::Sprint => {},
                }
            }
        }
        InputActions { main_menu_active: false, in_game_active: false, main_menu, in_game }
    }

    /// The active contexts, main menu first.
    pub fn get_active_contexts(&self) -> (r: Vec<ActionContexts>)
        ensures
            forall|c: ActionContexts| r@.contains(c) <==> self.context_active(c),
            r@.no_duplicates(),
    {
        let mut r: Vec<ActionContexts> = Vec::new();
        if self.main_menu_active {
            r.push(ActionContexts::MainMenu);
        }
        if self.in_game_active {
            r.push(ActionContexts::InGame);
        }
        proof {
            assert forall|c: ActionContexts| r@.contains(c) <==> self.context_active(c) by {
                if self.main_menu_active && self.in_game_active {
                    assert(r@[0] == ActionContexts::MainMenu);
                    assert(r@[1] == ActionContexts::InGame);
                } else if self.main_menu_active {
                    assert(r@[0] == ActionContexts::MainMenu);
                } else if self.in_game_active {
                    assert(r@[0] == ActionContexts::InGame);
                }
            }
        }
        r
    }

    /// Activates a context; the other contexts keep their state.
    pub fn set_active_context(&mut self, ctx: ActionContexts)
        ensures
            forall|c: ActionContexts| #[trigger]
                final(self).context_active(c) == (c == ctx || old(self).context_active(c)),
    {
        proof {
            use_type_invariant(&*self);
        }
        match ctx {
            ActionContexts::MainMenu => self.main_menu_active = true,
            ActionContexts::InGame => self.in_game_active = true,
        }
    }

    /// Deactivates a context; the other contexts keep their state.
    pub fn remove_active_context(&mut self, ctx: ActionContexts)
        ensures
            forall|c: ActionContexts| #[trigger]
                final(self).context_active(c) == (c != ctx && old(self).context_active(c)),
    {
        proof {
            use_type_invariant(&*self);
        }
        match ctx {
            ActionContexts::MainMenu => self.main_menu_active = false,
            ActionContexts::InGame => self.in_game_active = false,
        }
    }

    /// Whether the context is active.
    pub fn is_context_active(&self, ctx: ActionContexts) -> (r: bool)
        ensures
            r == self.context_active(ctx),
    {
        match ctx {
            ActionContexts::MainMenu => self.main_menu_active,
            ActionContexts::InGame => self.in_game_active,
        }
    }

    /// The bindings of a main menu action.
    pub fn main_menu_binding_of(&self, action: MainMenuActions) -> (r: ActionBindings)
        ensures
            r == main_menu_binding(action),
    {
        proof {
            use_type_invariant(self);
        }
        let i: usize = match action {
            MainMenuActions::Up => 0,
            MainMenuActions::Down => 1,
            MainMenuActions::Left => 2,
            MainMenuActions::Right => 3,
        };
        assert(self.main_menu@[main_menu_action_index(action)] == main_menu_binding(action));
        self.main_menu[i]
    }

    /// The bindings of an in-game action.
    pub fn in_game_binding_of(&self, action: InGameActions) -> (r: ActionBindings)
        ensures
            r == in_game_binding(action),
    {
        proof {
            use_type_invariant(self);
        }
        let i: usize = match action {
            InGameActions::Forward => 0,
            InGameActions::Backward => 1,
            InGameActions::Left => 2,
            InGameActions::Right => 3,
            InGameActions::LookUp => 4,
            InGameActions::LookDown => 5,
            InGameActions::LookLeft => 6,
            InGameActions::LookRight => 7,
            InGameActions::Sprint => 8,
        };
        assert(self.in_game@[in_game_action_index(action)] == in_game_binding(action));
        self.in_game[i]
    }

    /// Whether a main menu action is triggered: its context is active and one of its inputs for
    /// the current input mode is down.
    pub fn is_main_menu_action_down(&self, mgr: &InputManager, action: MainMenuActions) -> (r:
        bool)
        ensures
            r == (self.context_active(ActionContexts::MainMenu) && binding_down(
                mgr@,
                main_menu_binding(action),
            )),
    {
        if !self.is_context_active(ActionContexts::MainMenu) {
            return false;
        }
        let binding = self.main_menu_binding_of(action);
        self.is_binding_down(&binding, mgr)
    }

    /// Whether a main menu action is held at clock reading `now`: its context is active and one
    /// of its inputs for the current input mode is held.
    pub open spec fn main_menu_action_hold_at(self, v: InputManagerView, action: MainMenuActions, now: u128) -> bool {
        self.context_active(ActionContexts::MainMenu) && binding_hold_at(v, main_menu_binding(action), now)
    }

    /// Whether an in-game action is held at clock reading `now`: its context is active and one
    /// of its inputs for the current input mode is held.
    pub open spec fn in_game_action_hold_at(self, v: InputManagerView, action: InGameActions, now: u128) -> bool {
        self.context_active(ActionContexts::InGame) && binding_hold_at(v, in_game_binding(action), now)
    }

    /// Whether a main menu action is held, reading the clock for the current time.
    pub fn is_main_menu_action_hold(&self, mgr: &InputManager, action: MainMenuActions) -> (r:
        bool)
        ensures
            exists|now: u128|
                now >= mgr.latest_reading() && r == #[trigger] self.main_menu_action_hold_at(
                    mgr@,
                    action,
                    now,
                ),
    {
        let now = mgr.now();
        self.is_main_menu_action_hold_at(mgr, action, now)
    }

    /// Whether a main menu action is held at clock reading `now`: its context is active and one
    /// of its inputs for the current input mode is held.
    pub fn is_main_menu_action_hold_at(
        &self,
        mgr: &InputManager,
        action: MainMenuActions,
        now: u128,
    ) -> (r: bool)
        ensures
            r == self.main_menu_action_hold_at(mgr@, action, now),
    {
        if !self.is_context_active(ActionContexts::MainMenu) {
            return false;
        }
        let binding = self.main_menu_binding_of(action);
        self.is_binding_hold(&binding, mgr, now)
    }

    /// Whether an in-game action is triggered: its context is active and one of its inputs for
    /// the current input mode is down.
    pub fn is_in_game_action_down(&self, mgr: &InputManager, action: InGameActions) -> (r: bool)
        ensures
            r == (self.context_active(ActionContexts::InGame) && binding_down(
                mgr@,
                in_game_binding(action),
            )),
    {
        if !self.is_context_active(ActionContexts::InGame) {
            return false;
        }
        let binding = self.in_game_binding_of(action);
        self.is_binding_down(&binding, mgr)
    }

    /// Whether an in-game action is held, reading the clock for the current time.
    pub fn is_in_game_action_hold(&self, mgr: &InputManager, action: InGameActions) -> (r: bool)
        ensures
            exists|now: u128|
                now >= mgr.latest_reading() && r == #[trigger] self.in_game_action_hold_at(
                    mgr@,
                    action,
                    now,
                ),
    {
        let now = mgr.now();
        self.is_in_game_action_hold_at(mgr, action, now)
    }

    /// Whether an in-game action is held at clock reading `now`: its context is active and one
    /// of its inputs for the current input mode is held.
    pub fn is_in_game_action_hold_at(&self, mgr: &InputManager, action: InGameActions, now: u128) -> (r:
        bool)
        ensures
            r == self.in_game_action_hold_at(mgr@, action, now),
    {
        if !self.is_context_active(ActionContexts::InGame) {
            return false;
        }
        let binding = self.in_game_binding_of(action);
        self.is_binding_hold(&binding, mgr, now)
    }

    /// Whether some bound input of the current input mode is down.
    pub fn is_binding_down(&self, binding: &ActionBindings, mgr: &InputManager) -> (r: bool)
        ensures
            r == binding_down(mgr@, *binding),
    {
        match mgr.get_current_input_mode() {
            InputMode::KBM => {
                let inputs = binding.get_kbm_bindings();
                let mut i: usize = 0;
                while i < 2
                    invariant
                        i <= 2,
                        inputs@ == seq![binding.kbm, binding.kbm_alt],
                        mgr@.mode == InputMode::KBM,
                        forall|j: int| #![trigger inputs@[j]]
                            0 <= j < i ==> !(inputs@[j] matches Some(x) && kb_input_down(mgr@, x)),
                    decreases 2 - i,
                {
                    if let Some(input) = inputs[i] {
                        if self.is_kb_input_down(&input, mgr) {
                            return true;
                        }
                    }
                    i = i + 1;
                }
            },
            InputMode::Gamepad => {
                let inputs = binding.get_gamepad_bindings();
                let mut i: usize = 0;
                while i < 2
                    invariant
                        i <= 2,
                        inputs@ == seq![binding.gamepad, binding.gamepad_alt],
                        mgr@.mode == InputMode::Gamepad,
                        forall|j: int| #![trigger inputs@[j]]
                            0 <= j < i ==> !(inputs@[j] matches Some(x) && gp_input_down(mgr@, x)),
                    decreases 2 - i,
                {
                    if let Some(input) = inputs[i] {
                        if self.is_gp_input_down(&input, mgr) {
                            return true;
                        }
                    }
                    i = i + 1;
                }
            },
        }
        false
    }

    fn is_kb_input_down(&self, input: &KeyboardMouseInput, mgr: &InputManager) -> (r: bool)
        ensures
            r == kb_input_down(mgr@, *input),
    {
        match *input {
            KeyboardMouseInput::Key(key) => mgr.is_key_down(key),
            KeyboardMouseInput::Mouse(mouse) => mgr.is_mouse_down(mouse),
            KeyboardMouseInput::MouseMotion(mm) => mgr.is_mouse_in_motion(mm),
        }
    }

    fn is_gp_input_down(&self, input: &GamepadInput, mgr: &InputManager) -> (r: bool)
        ensures
            r == gp_input_down(mgr@, *input),
    {
        match *input {
            GamepadInput::Button(btn) => mgr.is_button_down(btn),
            GamepadInput::Stick(stick) => mgr.is_stick_in_motion(stick),
            GamepadInput::Trigger(trigger) => mgr.is_trigger_active(trigger),
        }
    }

    /// Whether some bound input of the current input mode is held at clock reading `now`.
    pub fn is_binding_hold(&self, binding: &ActionBindings, mgr: &InputManager, now: u128) -> (r:
        bool)
        ensures
            r == binding_hold_at(mgr@, *binding, now),
    {
        match mgr.get_current_input_mode() {
            InputMode::KBM => {
                let inputs = binding.get_kbm_bindings();
                let mut i: usize = 0;
                while i < 2
                    invariant
                        i <= 2,
                        inputs@ == seq![binding.kbm, binding.kbm_alt],
                        mgr@.mode == InputMode::KBM,
                        forall|j: int| #![trigger inputs@[j]]
                            0 <= j < i ==> !(inputs@[j] matches Some(x) && kb_input_hold(mgr@, x)),
                    decreases 2 - i,
                {
                    if let Some(input) = inputs[i] {
                        if self.is_kb_input_hold(&input, mgr) {
                            return true;
                        }
                    }
                    i = i + 1;
                }
            },
            InputMode::Gamepad => {
                let inputs = binding.get_gamepad_bindings();
                let mut i: usize = 0;
                while i < 2
                    invariant
                        i <= 2,
                        inputs@ == seq![binding.gamepad, binding.gamepad_alt],
                        mgr@.mode == InputMode::Gamepad,
                        forall|j: int| #![trigger inputs@[j]]
                            0 <= j < i ==> !(inputs@[j] matches Some(x) && gp_input_hold_at(
                                mgr@,
                                x,
                                now,
                            )),
                    decreases 2 - i,
                {
                    if let Some(input) = inputs[i] {
                        if self.is_gp_input_hold(&input, mgr, now) {
                            return true;
                        }
                    }
                    i = i + 1;
                }
            },
        }
        false
    }

    fn is_kb_input_hold(&self, input: &KeyboardMouseInput, mgr: &InputManager) -> (r: bool)
        ensures
            r == kb_input_hold(mgr@, *input),
    {
        match *input {
            KeyboardMouseInput::Key(key) => mgr.is_key_hold(key),
            KeyboardMouseInput::Mouse(mouse) => mgr.is_mouse_hold(mouse),
            KeyboardMouseInput::MouseMotion(mm) => mgr.is_mouse_in_motion(mm),
        }
    }

    fn is_gp_input_hold(&self, input: &GamepadInput, mgr: &InputManager, now: u128) -> (r: bool)
        ensures
            r == gp_input_hold_at(mgr@, *input, now),
    {
        match *input {
            GamepadInput::Button(btn) => mgr.is_button_hold_at(btn, now),
            GamepadInput::Stick(stick) => mgr.is_stick_in_motion(stick),
            GamepadInput::Trigger(trigger) => mgr.is_trigger_active(trigger),
        }
    }
}

/// With keyboard and mouse in use, pressing W makes the forward action's bindings read as down,
/// and releasing it (with no other input of the action pressed) makes them read as up.
pub proof fn lemma_w_drives_forward(v: InputManagerView, now: u128)
    ensures
        binding_down(
            v.after_device_event(
                DeviceEvent::Key { key: Some(Key { code: KEY_W }), state: Event::Pressed },
                now,
            ),
            in_game_binding(InGameActions::Forward),
        ),
        !binding_down(
            v.after_device_event(
                DeviceEvent::Key { key: Some(Key { code: KEY_W }), state: Event::Released },
                now,
            ),
            in_game_binding(InGameActions::Forward),
        ),
{
}

/// The movement keys: with keyboard and mouse in use, pressing W, S, A or D triggers the
/// Forward, Backward, Left or Right bindings respectively, and not the opposite direction's
/// bindings unless that direction's key was already down.
pub proof fn lemma_movement_keys(v: InputManagerView, now: u128)
    ensures
        ({
            let w = v.after_device_event(
                DeviceEvent::Key { key: Some(Key { code: KEY_W }), state: Event::Pressed },
                now,
            );
            &&& binding_down(w, in_game_binding(InGameActions::Forward))
            &&& !v.key_down(Key { code: KEY_S }) ==> !binding_down(
                w,
                in_game_binding(InGameActions::Backward),
            )
        }),
        ({
            let w = v.after_device_event(
                DeviceEvent::Key { key: Some(Key { code: KEY_S }), state: Event::Pressed },
                now,
            );
            &&& binding_down(w, in_game_binding(InGameActions::Backward))
            &&& !v.key_down(Key { code: KEY_W }) ==> !binding_down(
                w,
                in_game_binding(InGameActions::Forward),
            )
        }),
        ({
            let w = v.after_device_event(
                DeviceEvent::Key { key: Some(Key { code: KEY_A }), state: Event::Pressed },
                now,
            );
            &&& binding_down(w, in_game_binding(InGameActions::Left))
            &&& !v.key_down(Key { code: KEY_D }) ==> !binding_down(
                w,
                in_game_binding(InGameActions::Right),
            )
        }),
        ({
            let w = v.after_device_event(
                DeviceEvent::Key { key: Some(Key { code: KEY_D }), state: Event::Pressed },
                now,
            );
            &&& binding_down(w, in_game_binding(InGameActions::Right))
            &&& !v.key_down(Key { code: KEY_A }) ==> !binding_down(
                w,
                in_game_binding(InGameActions::Left),
            )
        }),
{
}

/// The same through the action queries: with the in-game context active and keyboard and mouse
/// in use, an action is triggered by exactly the movement key bound to it when only that key is
/// down.
pub proof fn lemma_movement_actions(actions: InputActions, v: InputManagerView, code: u32)
    requires
        actions.context_active(ActionContexts::InGame),
        v.mode == InputMode::KBM,
        code == KEY_W || code == KEY_S || code == KEY_A || code == KEY_D,
        v.key_down(Key { code }),
        forall|k: Key| k.code != code ==> !#[trigger] v.key_down(k),
    ensures
        (actions.context_active(ActionContexts::InGame) && binding_down(
            v,
            in_game_binding(InGameActions::Forward),
        )) <==> code == KEY_W,
        (actions.context_active(ActionContexts::InGame) && binding_down(
            v,
            in_game_binding(InGameActions::Backward),
        )) <==> code == KEY_S,
        (actions.context_active(ActionContexts::InGame) && binding_down(
            v,
            in_game_binding(InGameActions::Left),
        )) <==> code == KEY_A,
        (actions.context_active(ActionContexts::InGame) && binding_down(
            v,
            in_game_binding(InGameActions::Right),
        )) <==> code == KEY_D,
{
    assert(!v.key_down(Key { code: KEY_W }) || code == KEY_W);
    assert(!v.key_down(Key { code: KEY_S }) || code == KEY_S);
    assert(!v.key_down(Key { code: KEY_A }) || code == KEY_A);
    assert(!v.key_down(Key { code: KEY_D }) || code == KEY_D);
}

/// An action whose context is inactive is neither down nor held, whatever the input.
pub proof fn lemma_inactive_context_is_silent(
    actions: InputActions,
    v: InputManagerView,
    action: InGameActions,
    now: u128,
)
    requires
        !actions.context_active(ActionContexts::InGame),
    ensures
        !(actions.context_active(ActionContexts::InGame) && binding_down(v, in_game_binding(action))),
        !actions.in_game_action_hold_at(v, action, now),
{
}

} // verus!
