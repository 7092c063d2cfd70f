use vstd::prelude::*;

verus! {

/// Everything the dispatch loop reacts to.
#[derive(Clone, Copy, Debug, PartialEq, Eq, Structural)]
pub enum Action {
    Tick,
    Render,
    Resize(u16, u16),
    Suspend,
    Resume,
    Quit,
    ClearScreen,
    NextPane,
    Help,
    AddProject,
    ArchiveProject,
    ToggleArchived,
}

impl Action {
    /// Heartbeat and redraw requests are too frequent to be worth logging.
    pub fn is_noisy(&self) -> (r: bool)
        ensures
            r == (*self == Action::Tick || *self == Action::Render),
    {
        *self == Action::Tick || *self == Action::Render
    }
}

} // verus!
