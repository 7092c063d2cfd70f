use vstd::arithmetic::div_mod::{lemma_add_mod_noop, lemma_small_mod};
use vstd::prelude::*;

use crate::action::Action;
use crate::app::{
    after_event, apply_spec, commands_of, event_action, focus_consistent, focused_count,
    loop_step, run, run_commands, Command, Event, Next, Screen, UiState,
};
use crate::chord::resolve_spec;

verus! {

/// `k` actions `NextPane` in a row.
pub open spec fn next_panes(k: nat) -> Seq<Action> {
    Seq::new(k, |i: int| Action::NextPane)
}

/// The action that an event adds to the queue, if any.
pub open spec fn added_action(s: UiState, ev: Option<Event>) -> Option<Action> {
    match ev {
        Some(Event::Key(k)) => resolve_spec(s.table, s.mode, s.pending, k).0,
        Some(e) => event_action(e),
        None => None,
    }
}

/// Each `NextPane` moves focus on by exactly one pane, wrapping around after
/// the last; after any number of them, exactly one focusable pane reports
/// focus, and from the first pane the index is their count modulo the number
/// of focusable panes.
pub proof fn lemma_next_pane_cycles(s: UiState, k: nat)
    requires
        focus_consistent(s),
    ensures
        run(s, next_panes(k)).has_focus == (s.has_focus + k) % s.focusable_max,
        s.has_focus == 0 ==> run(s, next_panes(k)).has_focus == k % s.focusable_max,
        focus_consistent(run(s, next_panes(k))),
        focused_count(run(s, next_panes(k))) == 1,
    decreases k,
{
    if k == 0 {
        assert(next_panes(0) =~= Seq::<Action>::empty());
        lemma_small_mod(s.has_focus, s.focusable_max);
    } else {
        let k1 = (k - 1) as nat;
        lemma_next_pane_cycles(s, k1);
        assert(next_panes(k).drop_last() =~= next_panes(k1));
        lemma_add_mod_noop((s.has_focus + k1) as int, 1, s.focusable_max as int);
        lemma_small_mod(1, s.focusable_max);
    }
}

/// Clearing the screen twice in a row leaves the same state, and the same
/// blank surface, as clearing it once, and calls for the same surface work.
pub proof fn lemma_clear_screen_idempotent(s: UiState)
    ensures
        apply_spec(apply_spec(s, Action::ClearScreen), Action::ClearScreen) == apply_spec(s, Action::ClearScreen),
        apply_spec(s, Action::ClearScreen).screen == Screen::Blank,
        commands_of(apply_spec(s, Action::ClearScreen), Action::ClearScreen) == commands_of(s, Action::ClearScreen),
{
}

/// Applying actions never touches termination; a quit is pending afterwards
/// exactly when one was before or one was applied; and without a `Suspend`
/// among them, no suspend becomes pending.
pub proof fn lemma_run_flags(s: UiState, q: Seq<Action>)
    ensures
        run(s, q).terminating == s.terminating,
        run(s, q).should_quit == (s.should_quit || q.contains(Action::Quit)),
        !s.should_suspend && !q.contains(Action::Suspend) ==> !run(s, q).should_suspend,
    decreases q.len(),
{
    if q.len() > 0 {
        let p = q.drop_last();
        lemma_run_flags(s, p);
        if p.contains(Action::Quit) {
            let i = choose|i: int| 0 <= i < p.len() && p[i] == Action::Quit;
            assert(q[i] == Action::Quit);
        }
        if q.contains(Action::Quit) && q.last() != Action::Quit {
            let i = choose|i: int| 0 <= i < q.len() && q[i] == Action::Quit;
            assert(p[i] == Action::Quit);
        }
        if p.contains(Action::Suspend) {
            let i = choose|i: int| 0 <= i < p.len() && p[i] == Action::Suspend;
            assert(q[i] == Action::Suspend);
        }
        if q.last() == Action::Suspend {
            assert(q[q.len() - 1] == Action::Suspend);
        }
    }
}

/// An iteration that serves a suspend leaves `Resume` then `ClearScreen`
/// queued; the next iteration applies them before anything else, which clears
/// the suspend flag and blanks the surface, so that it does not suspend again
/// unless its own event asks for it.
pub proof fn lemma_suspend_round_trip(s: UiState, ev: Option<Event>, ev2: Option<Event>)
    requires
        !s.terminating,
        loop_step(s, ev).2 == Next::Suspend,
        added_action(loop_step(s, ev).0, ev2) != Some(Action::Suspend),
    ensures
        loop_step(s, ev).0.queue == seq![Action::Resume, Action::ClearScreen],
        loop_step(s, ev).0.should_suspend,
        !loop_step(s, ev).0.terminating,
        loop_step(loop_step(s, ev).0, ev2).1.len() > 0,
        loop_step(loop_step(s, ev).0, ev2).1[0] == Command::Clear,
        !loop_step(loop_step(s, ev).0, ev2).0.should_suspend,
        loop_step(loop_step(s, ev).0, ev2).2 != Next::Suspend,
{
    let s0 = match ev {
        Some(e) => after_event(s, e),
        None => s,
    };
    lemma_run_flags(s0, s0.queue);
    let s1 = loop_step(s, ev).0;
    assert(s1.queue =~= seq![Action::Resume, Action::ClearScreen]);
    let t = match ev2 {
        Some(e) => after_event(s1, e),
        None => s1,
    };
    let r = apply_spec(t, Action::Resume);
    let c = apply_spec(r, Action::ClearScreen);
    let q2 = seq![Action::Resume, Action::ClearScreen];
    assert(q2.drop_last() =~= seq![Action::Resume]);
    assert(seq![Action::Resume].drop_last() =~= Seq::<Action>::empty());
    assert(run(t, Seq::<Action>::empty()) == t);
    assert(run_commands(t, Seq::<Action>::empty()) == Seq::<Command>::empty());
    assert(seq![Action::Resume].last() == Action::Resume);
    assert(run(t, seq![Action::Resume]) == r);
    assert(run(t, q2) == c);
    assert(run_commands(t, seq![Action::Resume]) =~= Seq::<Command>::empty());
    assert(run_commands(t, q2) =~= seq![Command::Clear]);
    match added_action(s1, ev2) {
        Some(a) => {
            assert(t.queue =~= q2.push(a));
            assert(t.queue.drop_last() =~= q2);
            assert(run(t, t.queue) == apply_spec(c, a));
        },
        None => {
            assert(t.queue =~= q2);
        },
    }
}

/// Once the actions of an iteration leave a quit pending and no suspend, the
/// iteration ends the loop; from then on an iteration applies nothing and
/// changes nothing.
pub proof fn lemma_quit_terminates(s: UiState, ev: Option<Event>, later: Option<Event>)
    requires
        !s.terminating,
        !s.should_suspend,
        s.queue.contains(Action::Quit) || added_action(s, ev) == Some(Action::Quit),
        !s.queue.contains(Action::Suspend),
        added_action(s, ev) != Some(Action::Suspend),
    ensures
        loop_step(s, ev).2 == Next::Stop,
        loop_step(s, ev).0.terminating,
        loop_step(loop_step(s, ev).0, later) == (loop_step(s, ev).0, Seq::<Command>::empty(), Next::Stop),
{
    let t = match ev {
        Some(e) => after_event(s, e),
        None => s,
    };
    match added_action(s, ev) {
        Some(a) => {
            assert(t.queue == s.queue.push(a));
            if s.queue.contains(Action::Quit) {
                let i = choose|i: int| 0 <= i < s.queue.len() && s.queue[i] == Action::Quit;
                assert(t.queue[i] == Action::Quit);
            } else {
                assert(t.queue[t.queue.len() - 1] == Action::Quit);
            }
            if t.queue.contains(Action::Suspend) {
                let i = choose|i: int| 0 <= i < t.queue.len() && t.queue[i] == Action::Suspend;
                if i < s.queue.len() {
                    assert(s.queue[i] == Action::Suspend);
                }
            }
        },
        None => {
            assert(t.queue == s.queue);
        },
    }
    lemma_run_flags(t, t.queue);
}

} // verus!
