// Keyboard and mouse input as the TUI logic sees it, and key descriptions from the
// configuration (such as "Ctrl+h") parsed into key codes with modifiers.
use vstd::prelude::*;
use crate::text::{chars_of, has_prefix, str_eq, string_from_range, to_lowercase, trim, lowercase_of, starts_with, trim_spec};

verus! {

broadcast use vstd::string::group_string_axioms;

/// A key of the keyboard; keys the logic never tells apart are `Other`.
#[derive(Clone, Copy, Debug, PartialEq, Eq, Structural)]
pub enum KeyCode {
    Backspace,
    Enter,
    Left,
    Right,
    Up,
    Down,
    Home,
    End,
    PageUp,
    PageDown,
    Tab,
    BackTab,
    Esc,
    Char(char),
    Other,
}

/// The modifier keys held with a key, as the bits Shift = 1, Control = 2, Alt = 4.
#[derive(Clone, Copy, Debug, PartialEq, Eq, Structural)]
pub struct KeyModifiers {
    pub bits: u8,
}

impl KeyModifiers {
    /// No modifier held.
    pub fn none() -> (r: KeyModifiers)
        ensures
            r.bits == 0,
    {
        KeyModifiers { bits: 0 }
    }

    /// Only Shift held.
    pub fn shift() -> (r: KeyModifiers)
        ensures
            r.bits == 1,
    {
        KeyModifiers { bits: 1 }
    }

    /// Only Control held.
    pub fn control() -> (r: KeyModifiers)
        ensures
            r.bits == 2,
    {
        KeyModifiers { bits: 2 }
    }

    /// Only Alt held.
    pub fn alt() -> (r: KeyModifiers)
        ensures
            r.bits == 4,
    {
        KeyModifiers { bits: 4 }
    }
}

/// A key press: the key and the modifiers held with it.
#[derive(Clone, Copy, Debug, PartialEq, Eq, Structural)]
pub struct KeyEvent {
    pub code: KeyCode,
    pub modifiers: KeyModifiers,
}

/// The kinds of mouse event the logic tells apart.
#[derive(Clone, Copy, Debug, PartialEq, Eq, Structural)]
pub enum MouseEventKind {
    ScrollUp,
    ScrollDown,
    Other,
}

/// A mouse event.
#[derive(Clone, Copy, Debug, PartialEq, Eq, Structural)]
pub struct MouseEvent {
    pub kind: MouseEventKind,
}

/// A key bound to an action: its code and modifiers.
pub type KeyBinding = (KeyCode, KeyModifiers);

/// The prefixes that a key description may carry, in the order they are read.
pub open spec fn ctrl_prefix() -> Seq<char> {
    seq!['C', 't', 'r', 'l', '+']
}

pub open spec fn alt_prefix() -> Seq<char> {
    seq!['A', 'l', 't', '+']
}

pub open spec fn shift_prefix() -> Seq<char> {
    seq!['S', 'h', 'i', 'f', 't', '+']
}

/// What is left of a key description after its `Ctrl+`, `Alt+` and `Shift+` prefixes,
/// and the modifier bits they name.
pub open spec fn split_modifiers(s: Seq<char>) -> (Seq<char>, u8) {
    let (k1, m1) = if starts_with(s, ctrl_prefix()) {
        (s.subrange(5, s.len() as int), 2u8)
    } else {
        (s, 0u8)
    };
    let (k2, m2) = if starts_with(k1, alt_prefix()) {
        (k1.subrange(4, k1.len() as int), (m1 + 4) as u8)
    } else {
        (k1, m1)
    };
    if starts_with(k2, shift_prefix()) {
        (k2.subrange(6, k2.len() as int), (m2 + 1) as u8)
    } else {
        (k2, m2)
    }
}

/// The key code that a lower-case key name denotes: a named key, or a single ASCII
/// character.
pub open spec fn key_code_of_name(lower: Seq<char>) -> Option<KeyCode> {
    if lower == "tab"@ {
        Some(KeyCode::Tab)
    } else if lower == "backtab"@ {
        Some(KeyCode::BackTab)
    } else if lower == "enter"@ {
        Some(KeyCode::Enter)
    } else if lower == "esc"@ {
        Some(KeyCode::Esc)
    } else if lower == "up"@ {
        Some(KeyCode::Up)
    } else if lower == "down"@ {
        Some(KeyCode::Down)
    } else if lower == "left"@ {
        Some(KeyCode::Left)
    } else if lower == "right"@ {
        Some(KeyCode::Right)
    } else if lower.len() == 1 && (lower[0] as u32) < 128 {
        Some(KeyCode::Char(lower[0]))
    } else {
        None
    }
}

/// Each modifier prefix of a key description names its modifier: `Ctrl+` is Control (2),
/// `Alt+` is Alt (4) and `Shift+` is Shift (1), read in that order and added up; a key name
/// with no prefix has none.
pub proof fn modifier_prefixes_name_their_modifiers(k: Seq<char>)
    requires
        !starts_with(k, ctrl_prefix()),
        !starts_with(k, alt_prefix()),
        !starts_with(k, shift_prefix()),
    ensures
        split_modifiers(k) == (k, 0u8),
        split_modifiers(ctrl_prefix() + k) == (k, 2u8),
        split_modifiers(alt_prefix() + k) == (k, 4u8),
        split_modifiers(shift_prefix() + k) == (k, 1u8),
        split_modifiers(ctrl_prefix() + shift_prefix() + k) == (k, 3u8),
        split_modifiers(ctrl_prefix() + alt_prefix() + shift_prefix() + k) == (k, 7u8),
{
    let c = ctrl_prefix();
    let a = alt_prefix();
    let sh = shift_prefix();
    assert((c + k).subrange(0, 5) =~= c);
    assert((c + k).subrange(5, (c + k).len() as int) =~= k);
    assert((a + k).subrange(0, 4) =~= a);
    assert((a + k).subrange(4, (a + k).len() as int) =~= k);
    assert((sh + k).subrange(0, 6) =~= sh);
    assert((sh + k).subrange(6, (sh + k).len() as int) =~= k);
    assert(!starts_with(c + k, a)) by {
        assert((c + k)[0] == 'C');
    }
    assert(!starts_with(c + k, sh)) by {
        assert((c + k)[0] == 'C');
    }
    assert(!starts_with(a + k, c)) by {
        assert((a + k)[0] == 'A');
    }
    assert(!starts_with(a + k, sh)) by {
        assert((a + k)[0] == 'A');
    }
    assert(!starts_with(sh + k, c)) by {
        assert((sh + k)[0] == 'S');
    }
    assert(!starts_with(sh + k, a)) by {
        assert((sh + k)[0] == 'S');
    }
    let cs = c + sh + k;
    assert(cs.subrange(0, 5) =~= c);
    assert(cs.subrange(5, cs.len() as int) =~= sh + k);
    assert(!starts_with(sh + k, a));
    let cas = c + a + sh + k;
    assert(cas.subrange(0, 5) =~= c);
    assert(cas.subrange(5, cas.len() as int) =~= a + sh + k);
    let ask = a + sh + k;
    assert(ask.subrange(0, 4) =~= a);
    assert(ask.subrange(4, ask.len() as int) =~= sh + k);
}

/// The lower-case name of each named key: its variant's name, in lower case.
pub open spec fn key_name(code: KeyCode) -> Option<Seq<char>> {
    match code {
        KeyCode::Tab => Some(seq!['t', 'a', 'b']),
        KeyCode::BackTab => Some(seq!['b', 'a', 'c', 'k', 't', 'a', 'b']),
        KeyCode::Enter => Some(seq!['e', 'n', 't', 'e', 'r']),
        KeyCode::Esc => Some(seq!['e', 's', 'c']),
        KeyCode::Up => Some(seq!['u', 'p']),
        KeyCode::Down => Some(seq!['d', 'o', 'w', 'n']),
        KeyCode::Left => Some(seq!['l', 'e', 'f', 't']),
        KeyCode::Right => Some(seq!['r', 'i', 'g', 'h', 't']),
        _ => None,
    }
}

/// A key name denotes the key of that name: each named key's name gives that key, and a
/// single ASCII character gives the key of that character.
pub proof fn key_names_denote_their_keys(code: KeyCode, c: char)
    ensures
        key_name(code) matches Some(n) ==> key_code_of_name(n) == Some(code),
        (c as u32) < 128 && key_name(KeyCode::Char(c)) is None ==> key_code_of_name(seq![c]) == Some(KeyCode::Char(c)),
{
    reveal_strlit("tab");
    reveal_strlit("backtab");
    reveal_strlit("enter");
    reveal_strlit("esc");
    reveal_strlit("up");
    reveal_strlit("down");
    reveal_strlit("left");
    reveal_strlit("right");
    assert("tab"@ =~= seq!['t', 'a', 'b']);
    assert("backtab"@ =~= seq!['b', 'a', 'c', 'k', 't', 'a', 'b']);
    assert("enter"@ =~= seq!['e', 'n', 't', 'e', 'r']);
    assert("esc"@ =~= seq!['e', 's', 'c']);
    assert("up"@ =~= seq!['u', 'p']);
    assert("down"@ =~= seq!['d', 'o', 'w', 'n']);
    assert("left"@ =~= seq!['l', 'e', 'f', 't']);
    assert("right"@ =~= seq!['r', 'i', 'g', 'h', 't']);
    assert(seq![c].len() == 1);
}

/// The binding that a key description denotes, given the lower-case form of its key name.
pub open spec fn binding_of(s: Seq<char>) -> Option<KeyBinding> {
    let (key, bits) = split_modifiers(trim_spec(s));
    match key_code_of_name(lowercase_of(key)) {
        Some(code) => Some((code, KeyModifiers { bits })),
        None => None,
    }
}

/// The key code a lower-case key name denotes (see `key_code_of_name`).
pub fn key_code_from_name(lower: &str) -> (r: Option<KeyCode>)
    ensures
        r == key_code_of_name(lower@),
{
    if str_eq(lower, "tab") {
        Some(KeyCode::Tab)
    } else if str_eq(lower, "backtab") {
        Some(KeyCode::BackTab)
    } else if str_eq(lower, "enter") {
        Some(KeyCode::Enter)
    } else if str_eq(lower, "esc") {
        Some(KeyCode::Esc)
    } else if str_eq(lower, "up") {
        Some(KeyCode::Up)
    } else if str_eq(lower, "down") {
        Some(KeyCode::Down)
    } else if str_eq(lower, "left") {
        Some(KeyCode::Left)
    } else if str_eq(lower, "right") {
        Some(KeyCode::Right)
    } else {
        let v = chars_of(lower);
        if v.len() == 1 && (v[0] as u32) < 128 {
            Some(KeyCode::Char(v[0]))
        } else {
            None
        }
    }
}

fn strip_prefix_chars(v: &Vec<char>, prefix: &str) -> (r: Option<Vec<char>>)
    ensures
        match r {
            Some(w) => starts_with(v@, prefix@) && w@ == v@.subrange(
                prefix@.len() as int,
                v@.len() as int,
            ),
            None => !starts_with(v@, prefix@),
        },
{
    if has_prefix(v, prefix) {
        let p = chars_of(prefix);
        let mut w: Vec<char> = Vec::new();
        let mut i = p.len();
        while i < v.len()
            invariant
                p@.len() <= i <= v@.len(),
                w@ == v@.subrange(p@.len() as int, i as int),
            decreases v.len() - i,
        {
            w.push(v[i]);
            i = i + 1;
            assert(w@ =~= v@.subrange(p@.len() as int, i as int));
        }
        Some(w)
    } else {
        None
    }
}

/// Parses a key description such as "Ctrl+h", "Tab" or "q" into a binding: optional
/// `Ctrl+`, `Alt+`, `Shift+` prefixes, then a key name, compared in lower case.
pub fn parse_keybinding(s: &str) -> (r: Option<KeyBinding>)
    ensures
        r == binding_of(s@),
{
    let t = trim(s);
    let v = chars_of(t.as_str());
    let mut bits: u8 = 0;
    let mut key = v;
    assert(ctrl_prefix() == "Ctrl+"@) by { reveal_strlit("Ctrl+"); }
    assert(alt_prefix() == "Alt+"@) by { reveal_strlit("Alt+"); }
    assert(shift_prefix() == "Shift+"@) by { reveal_strlit("Shift+"); }
    match strip_prefix_chars(&key, "Ctrl+") {
        Some(w) => {
            bits = 2;
            key = w;
        },
        None => {},
    }
    match strip_prefix_chars(&key, "Alt+") {
        Some(w) => {
            bits = bits + 4;
            key = w;
        },
        None => {},
    }
    match strip_prefix_chars(&key, "Shift+") {
        Some(w) => {
            bits = bits + 1;
            key = w;
        },
        None => {},
    }
    let rest = string_from_range(&key, 0, key.len());
    assert(key@.subrange(0, key@.len() as int) =~= key@);
    let lower = to_lowercase(rest.as_str());
    match key_code_from_name(lower.as_str()) {
        Some(code) => Some((code, KeyModifiers { bits })),
        None => None,
    }
}

/// Whether a key press is the one bound, by code and modifiers.
pub open spec fn matches_binding(key: KeyEvent, b: KeyBinding) -> bool {
    key.code == b.0 && key.modifiers == b.1
}

} // verus!
