use vstd::prelude::*;

use crate::action::Action;
use crate::components::utils::{Focusable, Margin};

verus! {

/// The global settings form.
#[derive(Clone, Copy, Debug, PartialEq, Eq, Structural)]
pub struct Settings {
    pub has_focus: bool,
    pub margin: Margin,
}

impl Focusable for Settings {
    open spec fn is_focused(&self) -> bool {
        self.has_focus
    }

    open spec fn with_focus(&self, f: bool) -> Settings {
        Settings { has_focus: f, ..*self }
    }

    fn focus(&mut self) {
        self.has_focus = true;
    }

    fn unfocus(&mut self) {
        self.has_focus = false;
    }
}

impl Default for Settings {
    fn default() -> (r: Settings)
        ensures
            r == (Settings { has_focus: false, margin: Margin { horizontal: 0, vertical: 0 } }),
    {
        Settings::new()
    }
}

impl Settings {
    /// A form without focus and without margin.
    pub fn new() -> (r: Settings)
        ensures
            r == (Settings { has_focus: false, margin: Margin { horizontal: 0, vertical: 0 } }),
    {
        Settings { has_focus: false, margin: Margin { horizontal: 0, vertical: 0 } }
    }

    /// Reacts to an action; the form has nothing to do on any of them.
    pub fn update(&mut self, action: Action) -> (r: Option<Action>)
        ensures
            r.is_none(),
            *final(self) == *old(self),
    {
        match action {
            Action::Tick => {},
            Action::Render => {},
            _ => {},
        }
        None
    }
}

} // verus!
