use vstd::arithmetic::div_mod::{lemma_mod_self_0, lemma_small_mod};
use vstd::prelude::*;

verus! {

/// The pane index that follows `current` when focus cycles over `max` panes.
pub fn advance(current: usize, max: usize) -> (r: usize)
    requires
        current < max,
    ensures
        r == (current + 1) % (max as int),
        r < max,
{
    if current + 1 == max {
        proof {
            lemma_mod_self_0(max as int);
        }
        0
    } else {
        proof {
            lemma_small_mod((current + 1) as nat, max as nat);
        }
        current + 1
    }
}

} // verus!
