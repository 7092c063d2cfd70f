use vstd::prelude::*;

use crate::action::Action;

verus! {

/// The action queue: an unbounded first-in first-out channel of actions.
/// Both ends are held here, and the sending end is not handed out, so that
/// whatever is queued was queued through this value.
#[verifier::external_body]
pub struct ActionQueue {
    tx: tokio::sync::mpsc::UnboundedSender<Action>,
    rx: tokio::sync::mpsc::UnboundedReceiver<Action>,
}

/// The actions waiting in a queue, oldest first.
pub uninterp spec fn queued(q: ActionQueue) -> Seq<Action>;

impl ActionQueue {
    /// Relies on tokio's `mpsc::unbounded_channel`: a new channel holds nothing.
    #[verifier::external_body]
    pub fn new() -> (r: ActionQueue)
        ensures
            queued(r) == Seq::<Action>::empty(),
    {
        let (tx, rx) = tokio::sync::mpsc::unbounded_channel();
        ActionQueue { tx, rx }
    }

    /// Relies on tokio's `UnboundedSender::send`: it never waits, and it appends
    /// the action; it fails only once the receiving end is closed or dropped,
    /// and the receiving end here lives as long as this value and is never
    /// closed.
    #[verifier::external_body]
    pub fn push(&mut self, action: Action) -> (r: bool)
        ensures
            r,
            queued(*final(self)) == queued(*old(self)).push(action),
    {
        self.tx.send(action).is_ok()
    }

    /// Relies on tokio's `UnboundedReceiver::try_recv`: it takes the oldest
    /// action, and reports the channel empty only when it is (never spuriously).
    #[verifier::external_body]
    pub fn pop(&mut self) -> (r: Option<Action>)
        ensures
            queued(*old(self)).len() == 0 ==> r.is_none() && queued(*final(self)) == queued(*old(self)),
            queued(*old(self)).len() > 0 ==> r == Some(queued(*old(self))[0])
                && queued(*final(self)) == queued(*old(self)).drop_first(),
    {
        self.rx.try_recv().ok()
    }
}

} // verus!
