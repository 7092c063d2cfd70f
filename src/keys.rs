use vstd::prelude::*;

use crate::action::Action;

verus! {

/// Modifier bits, laid out as the terminal backend reports them.
pub const SHIFT: u8 = 1;
pub const CONTROL: u8 = 2;
pub const ALT: u8 = 4;

/// Interface mode; it selects which part of the keybinding table is active.
#[derive(Clone, Copy, Debug, PartialEq, Eq, Hash, Structural)]
pub enum Mode {
    Home,
}

impl Default for Mode {
    fn default() -> (r: Mode)
        ensures
            r == Mode::Home,
    {
        Mode::Home
    }
}

/// The key that was pressed.
#[derive(Clone, Copy, Debug, PartialEq, Eq, Hash, Structural)]
pub enum KeyCode {
    Backspace,
    Enter,
    Left,
    Right,
    Up,
    Down,
    Home,
    End,
    PageUp,
    PageDown,
    Tab,
    BackTab,
    Delete,
    Insert,
    F(u8),
    Char(char),
    Null,
    Esc,
    CapsLock,
    ScrollLock,
    NumLock,
    PrintScreen,
    Pause,
    Menu,
    KeypadBegin,
    Media(u8),
    Modifier(u8),
}

#[derive(Clone, Copy, Debug, PartialEq, Eq, Hash, Structural)]
pub enum KeyEventKind {
    Press,
    Repeat,
    Release,
}

/// One key event. Built through `Key::new`, a letter's case and the shift bit
/// agree, so that `==` on keys is the terminal's notion of the same key.
#[derive(Clone, Copy, Debug, PartialEq, Eq, Hash, Structural)]
pub struct Key {
    pub code: KeyCode,
    pub modifiers: u8,
    pub kind: KeyEventKind,
    pub state: u8,
}

pub open spec fn is_ascii_upper(c: char) -> bool {
    'A' <= c && c <= 'Z'
}

pub open spec fn ascii_upper(c: char) -> char {
    if 'a' <= c && c <= 'z' {
        ((c as u32) - 32) as char
    } else {
        c
    }
}

/// An upper-case letter carries the shift bit; with the shift bit, a letter is
/// upper case.
pub open spec fn normalized(code: KeyCode, modifiers: u8, kind: KeyEventKind, state: u8) -> Key {
    match code {
        KeyCode::Char(c) => if is_ascii_upper(c) {
            Key { code, modifiers: modifiers | SHIFT, kind, state }
        } else if modifiers & SHIFT != 0 {
            Key { code: KeyCode::Char(ascii_upper(c)), modifiers, kind, state }
        } else {
            Key { code, modifiers, kind, state }
        },
        _ => Key { code, modifiers, kind, state },
    }
}

fn to_ascii_upper(c: char) -> (r: char)
    ensures
        r == ascii_upper(c),
{
    if 'a' <= c && c <= 'z' {
        ((c as u32 - 32) as u8) as char
    } else {
        c
    }
}

impl Key {
    /// A key event of any kind, in normal form.
    pub fn with_kind(code: KeyCode, modifiers: u8, kind: KeyEventKind, state: u8) -> (r: Key)
        ensures
            r == normalized(code, modifiers, kind, state),
    {
        match code {
            KeyCode::Char(c) => {
                if 'A' <= c && c <= 'Z' {
                    Key { code, modifiers: modifiers | SHIFT, kind, state }
                } else if modifiers & SHIFT != 0 {
                    Key { code: KeyCode::Char(to_ascii_upper(c)), modifiers, kind, state }
                } else {
                    Key { code, modifiers, kind, state }
                }
            },
            _ => Key { code, modifiers, kind, state },
        }
    }

    /// A key press, in normal form.
    pub fn new(code: KeyCode, modifiers: u8) -> (r: Key)
        ensures
            r == normalized(code, modifiers, KeyEventKind::Press, 0),
    {
        Key::with_kind(code, modifiers, KeyEventKind::Press, 0)
    }
}

/// Two key sequences are equal, element by element.
pub fn same_keys(a: &[Key], b: &[Key]) -> (r: bool)
    ensures
        r == (a@ == b@),
{
    if a.len() != b.len() {
        return false;
    }
    let mut i: usize = 0;
    while i < a.len()
        invariant
            a@.len() == b@.len(),
            i <= a@.len(),
            a@.take(i as int) == b@.take(i as int),
        decreases a@.len() - i,
    {
        if a[i] != b[i] {
            assert(a@[i as int] != b@[i as int]);
            return false;
        }
        assert(a@.take(i + 1) == a@.take(i as int).push(a@[i as int]));
        assert(b@.take(i + 1) == b@.take(i as int).push(b@[i as int]));
        i = i + 1;
    }
    assert(a@.take(a@.len() as int) == a@);
    assert(b@.take(b@.len() as int) == b@);
    true
}

/// One entry of a keybinding table.
#[derive(Clone, Debug)]
pub struct Binding {
    pub mode: Mode,
    pub keys: Vec<Key>,
    pub action: Action,
}

/// What a list of entries binds: a later entry for the same mode and keys
/// replaces an earlier one.
pub open spec fn table_of(entries: Seq<(Mode, Seq<Key>, Action)>) -> Map<(Mode, Seq<Key>), Action>
    decreases entries.len(),
{
    if entries.len() == 0 {
        Map::empty()
    } else {
        let e = entries.last();
        table_of(entries.drop_last()).insert((e.0, e.1), e.2)
    }
}

/// What the table binds a sequence of keys to in a mode, if anything.
pub open spec fn lookup(
    table: Map<(Mode, Seq<Key>), Action>,
    mode: Mode,
    keys: Seq<Key>,
) -> Option<Action> {
    if table.contains_key((mode, keys)) {
        Some(table[(mode, keys)])
    } else {
        None
    }
}

/// The keybinding table: for each mode, the key sequences it binds, each to
/// one action. Matching is exact and order-significant.
pub struct KeyBindings {
    entries: Vec<Binding>,
}

pub open spec fn entry_view(b: Binding) -> (Mode, Seq<Key>, Action) {
    (b.mode, b.keys@, b.action)
}

impl View for KeyBindings {
    type V = Map<(Mode, Seq<Key>), Action>;

    closed spec fn view(&self) -> Map<(Mode, Seq<Key>), Action> {
        table_of(self.entries@.map_values(|b: Binding| entry_view(b)))
    }
}

impl KeyBindings {
    /// A table that binds nothing.
    pub fn new() -> (r: KeyBindings)
        ensures
            r@ == Map::<(Mode, Seq<Key>), Action>::empty(),
    {
        let r = KeyBindings { entries: Vec::new() };
        assert(r.entries@.map_values(|b: Binding| entry_view(b)).len() == 0);
        r
    }

    /// Binds `keys` in `mode` to `action`, replacing what they were bound to.
    pub fn bind(&mut self, mode: Mode, keys: Vec<Key>, action: Action)
        ensures
            final(self)@ == old(self)@.insert((mode, keys@), action),
    {
        let ghost old_entries = self.entries@;
        let ghost k = keys@;
        self.entries.push(Binding { mode, keys, action });
        assert(self.entries@.map_values(|b: Binding| entry_view(b)).drop_last()
            == old_entries.map_values(|b: Binding| entry_view(b)));
        assert(self.entries@.map_values(|b: Binding| entry_view(b)).last() == (mode, k, action));
    }

    /// The action that `keys` are bound to in `mode`.
    pub fn get(&self, mode: Mode, keys: &[Key]) -> (r: Option<Action>)
        ensures
            r == lookup(self@, mode, keys@),
    {
        let ghost s = self.entries@.map_values(|b: Binding| entry_view(b));
        let mut i: usize = self.entries.len();
        assert(s.take(i as int) == s);
        while i > 0
            invariant
                i <= self.entries@.len(),
                s == self.entries@.map_values(|b: Binding| entry_view(b)),
                lookup(table_of(s.take(i as int)), mode, keys@) == lookup(self@, mode, keys@),
            decreases i,
        {
            let e = &self.entries[i - 1];
            assert(s.take(i as int).drop_last() == s.take(i - 1));
            assert(s.take(i as int).last() == entry_view(*e));
            if e.mode == mode && same_keys(e.keys.as_slice(), keys) {
                return Some(e.action);
            }
            assert((e.mode, e.keys@) != (mode, keys@));
            i = i - 1;
        }
        assert(s.take(0) =~= Seq::empty());
        None
    }
}

} // verus!
