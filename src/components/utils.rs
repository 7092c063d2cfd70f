use vstd::prelude::*;

verus! {

/// A pane that can take and give up input focus.
pub trait Focusable: Sized {
    spec fn is_focused(&self) -> bool;

    /// The same pane, with focus set to `f` and nothing else changed.
    spec fn with_focus(&self, f: bool) -> Self;

    fn focus(&mut self)
        ensures
            *final(self) == old(self).with_focus(true),
            final(self).is_focused(),
    ;

    fn unfocus(&mut self)
        ensures
            *final(self) == old(self).with_focus(false),
            !final(self).is_focused(),
    ;
}

/// Space kept free inside a pane's border, in cells.
#[derive(Clone, Copy, Debug, PartialEq, Eq, Hash, Structural)]
pub struct Margin {
    pub horizontal: u16,
    pub vertical: u16,
}

} // verus!
