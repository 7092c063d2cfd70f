use fishtank::action::Action;
use fishtank::app::{App, Command, Event, Next, Screen};
use fishtank::chord::ChordResolver;
use fishtank::focus::advance;
use fishtank::keys::{Key, KeyBindings, KeyCode, KeyEventKind, Mode, CONTROL, SHIFT};
use fishtank::queue::ActionQueue;

fn ch(c: char) -> Key {
    Key::new(KeyCode::Char(c), 0)
}

fn chord_table() -> KeyBindings {
    let mut t = KeyBindings::new();
    t.bind(Mode::Home, vec![ch('a')], Action::Help);
    t.bind(Mode::Home, vec![ch('b'), ch('c')], Action::AddProject);
    t
}

fn default_table() -> KeyBindings {
    let mut t = KeyBindings::new();
    t.bind(Mode::Home, vec![ch('q')], Action::Quit);
    t.bind(Mode::Home, vec![Key::new(KeyCode::Tab, 0)], Action::NextPane);
    t.bind(Mode::Home, vec![Key::new(KeyCode::Char('z'), CONTROL)], Action::Suspend);
    t
}

#[test]
fn single_key_resolves_at_once() {
    let table = chord_table();
    let mut r = ChordResolver::new();
    assert_eq!(r.resolve(ch('a'), Mode::Home, &table), Some(Action::Help));
    assert!(r.pending().is_empty());
}

#[test]
fn two_key_chord_resolves_on_second_key() {
    let table = chord_table();
    let mut r = ChordResolver::new();
    assert_eq!(r.resolve(ch('b'), Mode::Home, &table), None);
    assert_eq!(r.pending(), &[ch('b')]);
    assert_eq!(r.resolve(ch('c'), Mode::Home, &table), Some(Action::AddProject));
    assert!(r.pending().is_empty());
}

#[test]
fn single_key_match_discards_pending_keys() {
    let table = chord_table();
    let mut r = ChordResolver::new();
    assert_eq!(r.resolve(ch('x'), Mode::Home, &table), None);
    assert_eq!(r.resolve(ch('a'), Mode::Home, &table), Some(Action::Help));
    assert!(r.pending().is_empty());
}

#[test]
fn unbound_keys_keep_accumulating() {
    let table = KeyBindings::new();
    let mut r = ChordResolver::new();
    assert_eq!(r.resolve(ch('x'), Mode::Home, &table), None);
    assert_eq!(r.resolve(ch('y'), Mode::Home, &table), None);
    assert_eq!(r.pending(), &[ch('x'), ch('y')]);
}

#[test]
fn tick_between_chord_keys_breaks_the_chord() {
    let mut app = App::new(chord_table(), 80, 24);
    let it = app.iterate(Some(Event::Key(ch('b')))).unwrap();
    assert!(it.commands.is_empty());
    assert_eq!(app.pending_keys(), &[ch('b')]);
    app.iterate(Some(Event::Tick)).unwrap();
    assert!(app.pending_keys().is_empty());
    app.handle_event(Event::Key(ch('c'))).unwrap();
    assert_eq!(app.pending_keys(), &[ch('c')]);
    let it = app.iterate(None).unwrap();
    assert!(it.commands.is_empty());
    assert_eq!(it.next, Next::Continue);
}

#[test]
fn chord_through_the_loop_queues_its_action() {
    let mut app = App::new(default_table(), 80, 24);
    app.iterate(Some(Event::Key(Key::new(KeyCode::Tab, 0)))).unwrap();
    assert_eq!(app.has_focus(), 1);
}

#[test]
fn resize_is_applied_before_render() {
    let mut app = App::new(KeyBindings::new(), 10, 5);
    app.handle_event(Event::Resize(80, 24)).unwrap();
    app.handle_event(Event::Render).unwrap();
    let cmds = app.handle_actions();
    assert_eq!(
        cmds,
        vec![Command::Resize(80, 24), Command::Draw(80, 24), Command::Draw(80, 24)]
    );
    assert_eq!(app.size(), (80, 24));
    assert_eq!(app.screen(), Screen::Frame(80, 24));
    assert!(app.handle_actions().is_empty());
}

#[test]
fn render_draws_at_current_size() {
    let mut app = App::new(KeyBindings::new(), 100, 30);
    let it = app.iterate(Some(Event::Render)).unwrap();
    assert_eq!(it.commands, vec![Command::Draw(100, 30)]);
}

#[test]
fn next_pane_cycles_focus() {
    let mut app = App::new(KeyBindings::new(), 80, 24);
    assert_eq!(app.focusable_max(), 2);
    assert_eq!(app.has_focus(), 0);
    assert!(app.software().has_focus);
    assert!(!app.projects().has_focus);
    for k in 1..=7usize {
        let mut out = Vec::new();
        app.apply(Action::NextPane, &mut out);
        assert!(out.is_empty());
        assert_eq!(app.has_focus(), k % 2);
        let focused = [app.software().has_focus, app.projects().has_focus];
        assert_eq!(focused.iter().filter(|f| **f).count(), 1);
        assert_eq!(app.software().has_focus, k % 2 == 0);
    }
    assert!(!app.main_area().has_focus);
}

#[test]
fn clear_screen_twice_equals_once() {
    let mut app = App::new(KeyBindings::new(), 80, 24);
    let mut out = Vec::new();
    app.apply(Action::Render, &mut out);
    app.apply(Action::ClearScreen, &mut out);
    let once = (app.screen(), app.size(), app.has_focus(), app.should_quit());
    app.apply(Action::ClearScreen, &mut out);
    let twice = (app.screen(), app.size(), app.has_focus(), app.should_quit());
    assert_eq!(once, twice);
    assert_eq!(app.screen(), Screen::Blank);
    assert_eq!(out, vec![Command::Draw(80, 24), Command::Clear, Command::Clear]);
}

#[test]
fn suspend_queues_resume_and_clear() {
    let mut app = App::new(default_table(), 80, 24);
    let z = Key::new(KeyCode::Char('z'), CONTROL);
    let it = app.iterate(Some(Event::Key(z))).unwrap();
    assert_eq!(it.next, Next::Suspend);
    assert!(app.should_suspend());
    let it = app.iterate(None).unwrap();
    assert_eq!(it.commands, vec![Command::Clear]);
    assert_eq!(it.next, Next::Continue);
    assert!(!app.should_suspend());
    assert_eq!(app.screen(), Screen::Blank);
}

#[test]
fn suspend_is_served_before_quit() {
    let mut app = App::new(KeyBindings::new(), 80, 24);
    let mut out = Vec::new();
    app.apply(Action::Quit, &mut out);
    app.apply(Action::Suspend, &mut out);
    assert_eq!(app.check_flags().unwrap(), Next::Suspend);
    let it = app.iterate(None).unwrap();
    assert_eq!(it.next, Next::Stop);
    assert!(app.is_terminating());
}

#[test]
fn quit_stops_within_one_iteration() {
    let mut app = App::new(default_table(), 80, 24);
    app.handle_event(Event::Quit).unwrap();
    app.handle_event(Event::Render).unwrap();
    let it = app.iterate(None).unwrap();
    assert_eq!(it.next, Next::Stop);
    assert_eq!(it.commands, vec![Command::Draw(80, 24)]);
    assert!(app.should_quit());
    assert!(app.is_terminating());
    let it = app.iterate(Some(Event::Resize(1, 1))).unwrap();
    assert_eq!(it.next, Next::Stop);
    assert!(it.commands.is_empty());
    assert_eq!(app.size(), (80, 24));
    let it = app.iterate(Some(Event::Key(Key::new(KeyCode::Tab, 0)))).unwrap();
    assert!(it.commands.is_empty());
    assert_eq!(app.has_focus(), 0);
}

#[test]
fn quit_key_stops_the_loop() {
    let mut app = App::new(default_table(), 80, 24);
    let it = app.iterate(Some(Event::Key(ch('q')))).unwrap();
    assert_eq!(it.next, Next::Stop);
}

#[test]
fn ignored_events_queue_nothing() {
    let mut app = App::new(default_table(), 80, 24);
    for ev in [Event::Init, Event::FocusGained, Event::FocusLost, Event::Mouse, Event::Paste] {
        let it = app.iterate(Some(ev)).unwrap();
        assert!(it.commands.is_empty());
        assert_eq!(it.next, Next::Continue);
    }
    assert_eq!(app.mode(), Mode::Home);
}

#[test]
fn queue_is_first_in_first_out() {
    let mut q = ActionQueue::new();
    assert_eq!(q.pop(), None);
    assert!(q.push(Action::Resize(80, 24)));
    assert!(q.push(Action::Render));
    assert_eq!(q.pop(), Some(Action::Resize(80, 24)));
    assert_eq!(q.pop(), Some(Action::Render));
    assert_eq!(q.pop(), None);
}

#[test]
fn bind_replaces_earlier_binding() {
    let mut t = KeyBindings::new();
    t.bind(Mode::Home, vec![ch('q')], Action::Quit);
    t.bind(Mode::Home, vec![ch('q')], Action::Help);
    assert_eq!(t.get(Mode::Home, &[ch('q')]), Some(Action::Help));
    assert_eq!(t.get(Mode::Home, &[ch('q'), ch('q')]), None);
    assert_eq!(t.get(Mode::Home, &[]), None);
}

#[test]
fn shifted_letter_equals_upper_case_letter() {
    assert_eq!(Key::new(KeyCode::Char('A'), 0), Key::new(KeyCode::Char('a'), SHIFT));
    assert_eq!(Key::new(KeyCode::Char('A'), 0).modifiers, SHIFT);
    assert_ne!(Key::new(KeyCode::Char('a'), 0), Key::new(KeyCode::Char('A'), 0));
    assert_eq!(Key::new(KeyCode::Tab, SHIFT).code, KeyCode::Tab);
}

#[test]
fn advance_wraps() {
    assert_eq!(advance(0, 2), 1);
    assert_eq!(advance(1, 2), 0);
    assert_eq!(advance(0, 1), 0);
}

#[test]
fn noisy_actions() {
    assert!(Action::Tick.is_noisy());
    assert!(Action::Render.is_noisy());
    assert!(!Action::Quit.is_noisy());
}

#[test]
fn key_kind_and_state_take_part_in_equality() {
    let press = Key::with_kind(KeyCode::Char('x'), SHIFT, KeyEventKind::Press, 0);
    assert_eq!(press.code, KeyCode::Char('X'));
    let release = Key::with_kind(KeyCode::Char('X'), 0, KeyEventKind::Release, 0);
    assert_eq!(release.modifiers, SHIFT);
    assert_ne!(press, release);
    assert_ne!(press, Key::with_kind(KeyCode::Char('X'), SHIFT, KeyEventKind::Press, 2));
    assert_eq!(press, Key::new(KeyCode::Char('X'), 0));
}

#[test]
fn draining_keeps_pane_contents() {
    let mut app = App::new(KeyBindings::new(), 80, 24);
    assert_eq!(app.software().items, vec!["Dorado v0.8.1", "Bonito v0.1.0", "Guppy v0.2.0"]);
    assert!(app.projects().items.is_empty());
    for _ in 0..3 {
        app.handle_event(Event::Key(ch('x'))).unwrap();
        app.iterate(Some(Event::Tick)).unwrap();
    }
    let mut out = Vec::new();
    for _ in 0..3 {
        app.apply(Action::NextPane, &mut out);
    }
    app.apply(Action::ClearScreen, &mut out);
    assert_eq!(out, vec![Command::Clear]);
    assert_eq!(app.has_focus(), 1);
    assert!(app.projects().has_focus);
    assert!(!app.software().has_focus);
    assert!(!app.main_area().has_focus);
    assert_eq!(app.software().items.len(), 3);
    assert!(app.projects().items.is_empty());
}
