use vstd::prelude::*;

verus! {

/// Whether the application window currently has input focus.
pub struct WindowState {
    focused: bool,
}

impl WindowState {
    /// The focus flag as seen by specifications.
    pub closed spec fn focused_spec(&self) -> bool {
        self.focused
    }

    /// A freshly created window starts out focused.
    pub fn init() -> (s: Self)
        ensures
            s.focused_spec(),
    {
        WindowState { focused: true }
    }

    /// Records a focus change reported by the windowing system.
    pub fn update(&mut self, focused: bool)
        ensures
            final(self).focused_spec() == focused,
    {
        self.focused = focused;
    }

    /// Reports whether the window is focused.
    pub fn is_focused(&self) -> (r: bool)
        ensures
            r == self.focused_spec(),
    {
        self.focused
    }
}

} // verus!
