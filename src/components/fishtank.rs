use vstd::prelude::*;

use crate::action::Action;
use crate::components::utils::{Focusable, Margin};

verus! {

/// The decorative fish tank; it never takes part in focus cycling.
#[derive(Clone, Copy, Debug, PartialEq, Eq, Structural)]
pub struct Fishtank {
    pub has_focus: bool,
    pub margin: Margin,
}

impl Focusable for Fishtank {
    open spec fn is_focused(&self) -> bool {
        self.has_focus
    }

    open spec fn with_focus(&self, f: bool) -> Fishtank {
        Fishtank { has_focus: f, ..*self }
    }

    fn focus(&mut self) {
        self.has_focus = true;
    }

    fn unfocus(&mut self) {
        self.has_focus = false;
    }
}

impl Default for Fishtank {
    fn default() -> (r: Fishtank)
        ensures
            r == (Fishtank { has_focus: false, margin: Margin { horizontal: 0, vertical: 0 } }),
    {
        Fishtank::new()
    }
}

impl Fishtank {
    /// A tank without focus and without margin.
    pub fn new() -> (r: Fishtank)
        ensures
            r == (Fishtank { has_focus: false, margin: Margin { horizontal: 0, vertical: 0 } }),
    {
        Fishtank { has_focus: false, margin: Margin { horizontal: 0, vertical: 0 } }
    }

    /// Reacts to an action; the tank has nothing to do on any of them.
    pub fn update(&mut self, action: Action) -> (r: Option<Action>)
        ensures
            r.is_none(),
            *final(self) == *old(self),
    {
        match action {
            Action::Tick => {},
            Action::Render => {},
            _ => {},
        }
        None
    }
}

} // verus!
