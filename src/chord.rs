use vstd::prelude::*;

use crate::action::Action;
use crate::keys::{lookup, Key, KeyBindings, Mode};

verus! {

/// The outcome of one key: the action it completes, if any, and the keys left
/// pending afterwards.
///
/// The key on its own is tried first, and wins; only then the pending keys
/// followed by it. A match clears the pending keys; a miss keeps them, with the
/// new key at the end.
pub open spec fn resolve_spec(
    table: Map<(Mode, Seq<Key>), Action>,
    mode: Mode,
    pending: Seq<Key>,
    key: Key,
) -> (Option<Action>, Seq<Key>) {
    match lookup(table, mode, seq![key]) {
        Some(a) => (Some(a), Seq::empty()),
        None => match lookup(table, mode, pending.push(key)) {
            Some(a) => (Some(a), Seq::empty()),
            None => (None, pending.push(key)),
        },
    }
}

/// Resolves key events into actions against a keybinding table, holding the
/// keys of an unfinished chord.
pub struct ChordResolver {
    pending: Vec<Key>,
}

impl View for ChordResolver {
    type V = Seq<Key>;

    closed spec fn view(&self) -> Seq<Key> {
        self.pending@
    }
}

impl ChordResolver {
    /// A resolver with nothing pending.
    pub fn new() -> (r: ChordResolver)
        ensures
            r@ == Seq::<Key>::empty(),
    {
        ChordResolver { pending: Vec::new() }
    }

    /// The keys of the unfinished chord, oldest first.
    pub fn pending(&self) -> (r: &[Key])
        ensures
            r@ == self@,
    {
        self.pending.as_slice()
    }

    /// Drops the unfinished chord.
    pub fn clear(&mut self)
        ensures
            final(self)@ == Seq::<Key>::empty(),
    {
        self.pending.clear();
    }

    /// Feeds one key event in `mode`.
    pub fn resolve(&mut self, key: Key, mode: Mode, table: &KeyBindings) -> (r: Option<Action>)
        ensures
            (r, final(self)@) == resolve_spec(table@, mode, old(self)@, key),
    {
        let single = vec![key];
        assert(single@ == seq![key]);
        match table.get(mode, single.as_slice()) {
            Some(a) => {
                self.pending.clear();
                Some(a)
            },
            None => {
                self.pending.push(key);
                match table.get(mode, self.pending.as_slice()) {
                    Some(a) => {
                        self.pending.clear();
                        Some(a)
                    },
                    None => None,
                }
            },
        }
    }
}

} // verus!
