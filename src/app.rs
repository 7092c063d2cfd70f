use vstd::prelude::*;

use crate::action::Action;
use crate::chord::{resolve_spec, ChordResolver};
use crate::components::fishtank::Fishtank;
use crate::components::project_editor::ProjectList;
use crate::components::software_list::{known_software, SoftwareList};
use crate::components::utils::{Focusable, Margin};
use crate::focus::advance;
use crate::keys::{Key, KeyBindings, Mode};
use crate::queue::{queued, ActionQueue};

verus! {

/// The number of panes that take part in focus cycling: the software list and
/// the project list.
pub const FOCUSABLE_PANES: usize = 2;

/// What the terminal or timer source delivers to the loop.
#[derive(Clone, Copy, Debug, PartialEq, Eq, Structural)]
pub enum Event {
    Init,
    Quit,
    Error,
    Closed,
    Tick,
    Render,
    FocusGained,
    FocusLost,
    Paste,
    Key(Key),
    Mouse,
    Resize(u16, u16),
}

/// Work on the terminal surface that applying an action calls for.
#[derive(Clone, Copy, Debug, PartialEq, Eq, Structural)]
pub enum Command {
    /// Clear the surface.
    Clear,
    /// Resize the surface to this width and height.
    Resize(u16, u16),
    /// Draw every pane onto a surface of this width and height.
    Draw(u16, u16),
}

/// What the surface shows, as far as the loop has decided it.
#[derive(Clone, Copy, Debug, PartialEq, Eq, Structural)]
pub enum Screen {
    Blank,
    Frame(u16, u16),
}

/// What the loop does once an iteration's actions are applied.
#[derive(Clone, Copy, Debug, PartialEq, Eq, Structural)]
pub enum Next {
    /// Wait for the next event.
    Continue,
    /// Release the terminal surface and take it back at once; the actions that
    /// restore it are already queued.
    Suspend,
    /// Stop the surface and leave the loop.
    Stop,
}

#[derive(Clone, Copy, Debug, PartialEq, Eq, Structural)]
pub enum LoopError {
    /// The receiving end of the action queue is gone.
    ChannelClosed,
}

/// The outcome of one iteration of the loop.
pub struct Iteration {
    pub commands: Vec<Command>,
    pub next: Next,
}

/// The interface state, as the dispatch loop sees it.
pub struct UiState {
    pub table: Map<(Mode, Seq<Key>), Action>,
    pub mode: Mode,
    pub pending: Seq<Key>,
    pub queue: Seq<Action>,
    pub should_quit: bool,
    pub should_suspend: bool,
    pub has_focus: nat,
    pub focusable_max: nat,
    pub software_focused: bool,
    pub projects_focused: bool,
    pub width: u16,
    pub height: u16,
    pub screen: Screen,
    pub terminating: bool,
}

/// Focus is on one index below the pane count, and each focusable pane reports
/// focus exactly when it holds that index.
pub open spec fn focus_consistent(s: UiState) -> bool {
    &&& s.focusable_max == FOCUSABLE_PANES
    &&& s.has_focus < s.focusable_max
    &&& s.software_focused == (s.has_focus == 0)
    &&& s.projects_focused == (s.has_focus == 1)
}

/// How many focusable panes report focus.
pub open spec fn focused_count(s: UiState) -> nat {
    (if s.software_focused { 1nat } else { 0nat }) + (if s.projects_focused { 1nat } else { 0nat })
}

/// The state after one action is applied.
pub open spec fn apply_spec(s: UiState, a: Action) -> UiState {
    match a {
        Action::Tick => UiState { pending: Seq::empty(), ..s },
        Action::Quit => UiState { should_quit: true, ..s },
        Action::Suspend => UiState { should_suspend: true, ..s },
        Action::Resume => UiState { should_suspend: false, ..s },
        Action::ClearScreen => UiState { screen: Screen::Blank, ..s },
        Action::Resize(w, h) => UiState { width: w, height: h, screen: Screen::Frame(w, h), ..s },
        Action::Render => UiState { screen: Screen::Frame(s.width, s.height), ..s },
        Action::NextPane => {
            let f = (s.has_focus + 1) % s.focusable_max;
            UiState { has_focus: f, software_focused: f == 0, projects_focused: f == 1, ..s }
        },
        _ => s,
    }
}

/// The surface work that applying one action calls for. A resize is drawn at
/// once.
pub open spec fn commands_of(s: UiState, a: Action) -> Seq<Command> {
    match a {
        Action::ClearScreen => seq![Command::Clear],
        Action::Resize(w, h) => seq![Command::Resize(w, h), Command::Draw(w, h)],
        Action::Render => seq![Command::Draw(s.width, s.height)],
        _ => Seq::empty(),
    }
}

/// The state after the actions `q` are applied in order.
pub open spec fn run(s: UiState, q: Seq<Action>) -> UiState
    decreases q.len(),
{
    if q.len() == 0 {
        s
    } else {
        apply_spec(run(s, q.drop_last()), q.last())
    }
}

/// The surface work that applying the actions `q` in order calls for.
pub open spec fn run_commands(s: UiState, q: Seq<Action>) -> Seq<Command>
    decreases q.len(),
{
    if q.len() == 0 {
        Seq::empty()
    } else {
        run_commands(s, q.drop_last()) + commands_of(run(s, q.drop_last()), q.last())
    }
}

/// The state once every queued action is applied and the queue is empty.
pub open spec fn drained(s: UiState) -> UiState {
    UiState { queue: Seq::empty(), ..run(s, s.queue) }
}

/// The state after a key event: the key goes through the chord resolver, and
/// the action it completes, if any, is queued.
pub open spec fn after_key(s: UiState, key: Key) -> UiState {
    let (r, p) = resolve_spec(s.table, s.mode, s.pending, key);
    match r {
        Some(a) => UiState { pending: p, queue: s.queue.push(a), ..s },
        None => UiState { pending: p, ..s },
    }
}

/// The action that an event other than a key maps to.
pub open spec fn event_action(ev: Event) -> Option<Action> {
    match ev {
        Event::Quit => Some(Action::Quit),
        Event::Tick => Some(Action::Tick),
        Event::Render => Some(Action::Render),
        Event::Resize(w, h) => Some(Action::Resize(w, h)),
        _ => None,
    }
}

/// The state after an event is mapped to an action and that action queued.
pub open spec fn after_event(s: UiState, ev: Event) -> UiState {
    match ev {
        Event::Key(k) => after_key(s, k),
        _ => match event_action(ev) {
            Some(a) => UiState { queue: s.queue.push(a), ..s },
            None => s,
        },
    }
}

/// The decision taken once the actions are applied: a suspend is served
/// before a quit, and queues what restores the surface.
pub open spec fn settle(s: UiState) -> (UiState, Next) {
    if s.should_suspend {
        (UiState { queue: s.queue.push(Action::Resume).push(Action::ClearScreen), ..s }, Next::Suspend)
    } else if s.should_quit {
        (UiState { terminating: true, ..s }, Next::Stop)
    } else {
        (s, Next::Continue)
    }
}

/// One iteration of the loop on an event, if one came: map it to an action, apply
/// every queued action in order, then decide. Once terminating, nothing is
/// applied any more.
pub open spec fn loop_step(s: UiState, ev: Option<Event>) -> (UiState, Seq<Command>, Next) {
    if s.terminating {
        (s, Seq::empty(), Next::Stop)
    } else {
        let s1 = match ev {
            Some(e) => after_event(s, e),
            None => s,
        };
        let (s2, n) = settle(drained(s1));
        (s2, run_commands(s1, s1.queue), n)
    }
}

/// Two controllers hold the same panes, but for their focus flags.
pub open spec fn same_pane_contents(a: App, b: App) -> bool {
    &&& a.software_view().items == b.software_view().items
    &&& a.projects_view().items == b.projects_view().items
    &&& a.main_area_view() == b.main_area_view()
}

/// The interface controller: it owns the panes, the focus, the pending chord
/// and the action queue, and decides what each action does.
pub struct App {
    config: KeyBindings,
    should_quit: bool,
    should_suspend: bool,
    mode: Mode,
    chords: ChordResolver,
    actions: ActionQueue,
    software: SoftwareList,
    projects: ProjectList,
    main_area: Fishtank,
    has_focus: usize,
    focusable_max: usize,
    width: u16,
    height: u16,
    screen: Screen,
    terminating: bool,
}

impl View for App {
    type V = UiState;

    closed spec fn view(&self) -> UiState {
        UiState {
            table: self.config@,
            mode: self.mode,
            pending: self.chords@,
            queue: queued(self.actions),
            should_quit: self.should_quit,
            should_suspend: self.should_suspend,
            has_focus: self.has_focus as nat,
            focusable_max: self.focusable_max as nat,
            software_focused: self.software.has_focus,
            projects_focused: self.projects.has_focus,
            width: self.width,
            height: self.height,
            screen: self.screen,
            terminating: self.terminating,
        }
    }
}

impl App {
    /// Focus is consistent, the panes' own focus flags are the ones in the
    /// view, and the decorative pane never has focus.
    pub open spec fn wf(&self) -> bool {
        &&& focus_consistent(self@)
        &&& self.software_view().has_focus == self@.software_focused
        &&& self.projects_view().has_focus == self@.projects_focused
        &&& !self.main_area_view().has_focus
    }

    pub closed spec fn software_view(&self) -> SoftwareList {
        self.software
    }

    pub closed spec fn projects_view(&self) -> ProjectList {
        self.projects
    }

    /// A controller in mode `Home`, with the software list focused, nothing
    /// pending or queued, and a blank surface of the given size.
    pub fn new(config: KeyBindings, width: u16, height: u16) -> (r: App)
        ensures
            r.wf(),
            r@.focusable_max == FOCUSABLE_PANES,
            r.software_view().items@.map_values(|s: String| s@) == known_software(),
            r.projects_view().items@.len() == 0,
            r.main_area_view() == (Fishtank { has_focus: false, margin: Margin { horizontal: 0, vertical: 0 } }),
            r@.table == config@,
            r@.mode == Mode::Home,
            r@.pending == Seq::<Key>::empty(),
            r@.queue == Seq::<Action>::empty(),
            !r@.should_quit,
            !r@.should_suspend,
            r@.has_focus == 0,
            r@.software_focused,
            !r@.projects_focused,
            r@.width == width,
            r@.height == height,
            r@.screen == Screen::Blank,
            !r@.terminating,
    {
        let mut software = SoftwareList::default();
        let mut projects = ProjectList::default();
        software.focus();
        projects.unfocus();
        App {
            config,
            should_quit: false,
            should_suspend: false,
            mode: Mode::Home,
            chords: ChordResolver::new(),
            actions: ActionQueue::new(),
            software,
            projects,
            main_area: Fishtank::default(),
            has_focus: 0,
            focusable_max: FOCUSABLE_PANES,
            width,
            height,
            screen: Screen::Blank,
            terminating: false,
        }
    }

    fn enqueue(&mut self, action: Action)
        requires
            old(self).wf(),
        ensures
            final(self).wf(),
            same_pane_contents(*final(self), *old(self)),
            final(self)@ == (UiState { queue: old(self)@.queue.push(action), ..old(self)@ }),
    {
        self.actions.push(action);
    }

    /// Feeds a key event through the chord resolver and queues the action it
    /// completes.
    pub fn handle_key_event(&mut self, key: Key) -> (r: Result<(), LoopError>)
        requires
            old(self).wf(),
        ensures
            final(self).wf(),
            same_pane_contents(*final(self), *old(self)),
            r is Ok,
            final(self)@ == after_key(old(self)@, key),
    {
        match self.chords.resolve(key, self.mode, &self.config) {
            Some(action) => self.enqueue(action),
            None => {},
        }
        Ok(())
    }

    /// Maps an event to an action: keys go through the chord resolver, a quit, tick,
    /// render or resize becomes that action, anything else is ignored.
    pub fn handle_event(&mut self, event: Event) -> (r: Result<(), LoopError>)
        requires
            old(self).wf(),
        ensures
            final(self).wf(),
            same_pane_contents(*final(self), *old(self)),
            r is Ok,
            final(self)@ == after_event(old(self)@, event),
    {
        match event {
            Event::Quit => self.enqueue(Action::Quit),
            Event::Tick => self.enqueue(Action::Tick),
            Event::Render => self.enqueue(Action::Render),
            Event::Resize(w, h) => self.enqueue(Action::Resize(w, h)),
            Event::Key(key) => {
                let _ = self.handle_key_event(key);
            },
            _ => {},
        }
        Ok(())
    }

    fn next_pane(&mut self)
        requires
            old(self).wf(),
        ensures
            final(self).wf(),
            same_pane_contents(*final(self), *old(self)),
            final(self)@ == apply_spec(old(self)@, Action::NextPane),
    {
        self.has_focus = advance(self.has_focus, self.focusable_max);
        self.software.has_focus = self.has_focus == 0;
        self.projects.has_focus = self.has_focus == 1;
        self.software.unfocus();
        self.projects.unfocus();
        if self.has_focus == 0 {
            self.software.focus();
        } else if self.has_focus == 1 {
            self.projects.focus();
        }
    }

    /// Applies one action, and appends the surface work it calls for to `out`.
    pub fn apply(&mut self, action: Action, out: &mut Vec<Command>)
        requires
            old(self).wf(),
        ensures
            final(self).wf(),
            same_pane_contents(*final(self), *old(self)),
            final(self)@ == apply_spec(old(self)@, action),
            final(out)@ == old(out)@ + commands_of(old(self)@, action),
    {
        match action {
            Action::Tick => self.chords.clear(),
            Action::Quit => self.should_quit = true,
            Action::Suspend => self.should_suspend = true,
            Action::Resume => self.should_suspend = false,
            Action::ClearScreen => {
                self.screen = Screen::Blank;
                out.push(Command::Clear);
            },
            Action::Resize(w, h) => {
                self.width = w;
                self.height = h;
                self.screen = Screen::Frame(w, h);
                out.push(Command::Resize(w, h));
                out.push(Command::Draw(w, h));
            },
            Action::Render => {
                self.screen = Screen::Frame(self.width, self.height);
                out.push(Command::Draw(self.width, self.height));
            },
            Action::NextPane => self.next_pane(),
            _ => {},
        }
        assert(out@ =~= old(out)@ + commands_of(old(self)@, action));
    }

    /// Applies every queued action, oldest first, until the queue is empty,
    /// and returns the surface work they call for, in order.
    pub fn handle_actions(&mut self) -> (r: Vec<Command>)
        requires
            old(self).wf(),
        ensures
            final(self).wf(),
            same_pane_contents(*final(self), *old(self)),
            final(self)@ == drained(old(self)@),
            r@ == run_commands(old(self)@, old(self)@.queue),
    {
        let ghost s0 = self@;
        let ghost q0 = s0.queue;
        let ghost mut i: int = 0;
        let mut out: Vec<Command> = Vec::new();
        assert(q0.take(0) =~= Seq::<Action>::empty());
        assert(q0.skip(0) =~= q0);
        loop
            invariant
                self.wf(),
                same_pane_contents(*self, *old(self)),
                q0 == s0.queue,
                0 <= i <= q0.len(),
                self@ == (UiState { queue: q0.skip(i), ..run(s0, q0.take(i)) }),
                out@ == run_commands(s0, q0.take(i)),
            ensures
                self.wf(),
                same_pane_contents(*self, *old(self)),
                self@ == drained(s0),
                out@ == run_commands(s0, q0),
            decreases q0.len() - i,
        {
            match self.actions.pop() {
                Some(a) => {
                    proof {
                        assert(a == q0[i]);
                        assert(q0.skip(i).drop_first() =~= q0.skip(i + 1));
                        assert(q0.take(i + 1).drop_last() =~= q0.take(i));
                        assert(q0.take(i + 1).last() == a);
                    }
                    self.apply(a, &mut out);
                    proof {
                        i = i + 1;
                    }
                },
                None => {
                    proof {
                        assert(i == q0.len());
                        assert(q0.take(i) =~= q0);
                        assert(q0.skip(i) =~= Seq::<Action>::empty());
                    }
                    break;
                },
            }
        }
        out
    }

    /// Once the actions are applied: a pending suspend queues what restores
    /// the surface afterwards; otherwise a pending quit makes the loop
    /// terminate.
    pub fn check_flags(&mut self) -> (r: Result<Next, LoopError>)
        requires
            old(self).wf(),
        ensures
            final(self).wf(),
            same_pane_contents(*final(self), *old(self)),
            r is Ok,
            (final(self)@, r->Ok_0) == settle(old(self)@),
    {
        if self.should_suspend {
            self.enqueue(Action::Resume);
            self.enqueue(Action::ClearScreen);
            Ok(Next::Suspend)
        } else if self.should_quit {
            self.terminating = true;
            Ok(Next::Stop)
        } else {
            Ok(Next::Continue)
        }
    }

    /// One iteration of the loop, given the event that ended the wait, if one
    /// came: the event is mapped to an action, every queued action applied in order,
    /// and the flags checked. After termination it applies nothing.
    pub fn iterate(&mut self, event: Option<Event>) -> (r: Result<Iteration, LoopError>)
        requires
            old(self).wf(),
        ensures
            final(self).wf(),
            same_pane_contents(*final(self), *old(self)),
            r is Ok,
            (final(self)@, r->Ok_0.commands@, r->Ok_0.next) == loop_step(old(self)@, event),
    {
        if self.terminating {
            return Ok(Iteration { commands: Vec::new(), next: Next::Stop });
        }
        match event {
            Some(e) => {
                let _ = self.handle_event(e);
            },
            None => {},
        }
        let commands = self.handle_actions();
        match self.check_flags() {
            Ok(next) => Ok(Iteration { commands, next }),
            Err(e) => Err(e),
        }
    }

    pub fn has_focus(&self) -> (r: usize)
        ensures
            r == self@.has_focus,
    {
        self.has_focus
    }

    pub fn focusable_max(&self) -> (r: usize)
        ensures
            r == self@.focusable_max,
    {
        self.focusable_max
    }

    pub fn should_quit(&self) -> (r: bool)
        ensures
            r == self@.should_quit,
    {
        self.should_quit
    }

    pub fn should_suspend(&self) -> (r: bool)
        ensures
            r == self@.should_suspend,
    {
        self.should_suspend
    }

    pub fn is_terminating(&self) -> (r: bool)
        ensures
            r == self@.terminating,
    {
        self.terminating
    }

    pub fn mode(&self) -> (r: Mode)
        ensures
            r == self@.mode,
    {
        self.mode
    }

    /// The keys of the unfinished chord, oldest first.
    pub fn pending_keys(&self) -> (r: &[Key])
        ensures
            r@ == self@.pending,
    {
        self.chords.pending()
    }

    /// The surface's width and height.
    pub fn size(&self) -> (r: (u16, u16))
        ensures
            r == (self@.width, self@.height),
    {
        (self.width, self.height)
    }

    pub fn screen(&self) -> (r: Screen)
        ensures
            r == self@.screen,
    {
        self.screen
    }

    pub fn software(&self) -> (r: &SoftwareList)
        ensures
            *r == self.software_view(),
    {
        &self.software
    }

    pub fn projects(&self) -> (r: &ProjectList)
        ensures
            *r == self.projects_view(),
    {
        &self.projects
    }

    pub closed spec fn main_area_view(&self) -> Fishtank {
        self.main_area
    }

    /// The decorative pane.
    pub fn main_area(&self) -> (r: &Fishtank)
        ensures
            *r == self.main_area_view(),
    {
        &self.main_area
    }

    /// Moves the fish; nothing the loop decides on changes.
    pub fn set_fish_margin(&mut self, margin: Margin)
        requires
            old(self).wf(),
        ensures
            final(self).wf(),
            final(self)@ == old(self)@,
            final(self).software_view() == old(self).software_view(),
            final(self).projects_view() == old(self).projects_view(),
            final(self).main_area_view() == (Fishtank { margin, ..old(self).main_area_view() }),
    {
        self.main_area.margin = margin;
    }
}

} // verus!
