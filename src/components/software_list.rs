use vstd::prelude::*;
use vstd::string::StringExecFns;

use crate::action::Action;
use crate::components::utils::Focusable;

verus! {

/// The basecalling software that a new list shows.
pub open spec fn known_software() -> Seq<Seq<char>> {
    seq!["Dorado v0.8.1"@, "Bonito v0.1.0"@, "Guppy v0.2.0"@]
}

/// The pane listing the installed basecalling software.
#[derive(Clone, Debug)]
pub struct SoftwareList {
    pub items: Vec<String>,
    pub has_focus: bool,
}

impl Focusable for SoftwareList {
    open spec fn is_focused(&self) -> bool {
        self.has_focus
    }

    open spec fn with_focus(&self, f: bool) -> SoftwareList {
        SoftwareList { has_focus: f, ..*self }
    }

    fn focus(&mut self) {
        self.has_focus = true;
    }

    fn unfocus(&mut self) {
        self.has_focus = false;
    }
}

impl Default for SoftwareList {
    fn default() -> (r: SoftwareList)
        ensures
            r.items@.map_values(|s: String| s@) == known_software(),
            !r.has_focus,
    {
        SoftwareList::new()
    }
}

impl SoftwareList {
    /// The list of known software, without focus.
    pub fn new() -> (r: SoftwareList)
        ensures
            r.items@.map_values(|s: String| s@) == known_software(),
            !r.has_focus,
    {
        let items = vec![
            String::from_str("Dorado v0.8.1"),
            String::from_str("Bonito v0.1.0"),
            String::from_str("Guppy v0.2.0"),
        ];
        proof {
            reveal_strlit("Dorado v0.8.1");
            reveal_strlit("Bonito v0.1.0");
            reveal_strlit("Guppy v0.2.0");
        }
        assert(items@.map_values(|s: String| s@) =~= known_software());
        SoftwareList { items, has_focus: false }
    }

    /// Reacts to an action; this pane has nothing to do on any of them.
    pub fn update(&mut self, action: Action) -> (r: Option<Action>)
        ensures
            r.is_none(),
            *final(self) == *old(self),
    {
        match action {
            Action::Tick => {},
            Action::Render => {},
            _ => {},
        }
        None
    }
}

} // verus!
