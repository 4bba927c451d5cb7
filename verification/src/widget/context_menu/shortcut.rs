//! Keyboard shortcuts displayed beside context menu actions.
use vstd::prelude::*;
use iced_core::keyboard::key::Named;
use crate::widget::keyboard::{
    KeyName, Modifiers, Pressed, has_flag, key_name, named_key_name, same_named,
};

verus! {

/// `String::push` appends the given character to the end of the string.
pub assume_specification[ String::push ](string: &mut String, ch: char)
    ensures
        final(string)@ == old(string)@.push(ch),
;

/// A typed keyboard shortcut displayed beside an action item.
#[derive(Debug, Clone, Copy, PartialEq, Eq)]
pub struct Shortcut {
    pub modifiers: Modifiers,
    pub key: Key,
}

/// The key portion of a [`Shortcut`].
#[derive(Debug, Clone, Copy, PartialEq, Eq)]
pub enum Key {
    /// A character key.
    Character(char),
    /// A named keyboard key, with the name that the menus label it by.
    Named { key: Named, name: KeyName },
}

/// The code of a character with ASCII upper-case letters lowered.
pub open spec fn folded(c: char) -> u32 {
    if 65 <= c as u32 <= 90 {
        (c as u32 + 32) as u32
    } else {
        c as u32
    }
}

/// A character with ASCII lower-case letters raised.
pub open spec fn ascii_upper(c: char) -> char {
    if 97 <= c as u32 <= 122 {
        ((c as u32 - 32) as u8) as char
    } else {
        c
    }
}

/// Whether a pressed key triggers a shortcut key: a character key matches
/// text whose first character is the same letter, ignoring ASCII case; a
/// named key matches the same named key.
pub open spec fn key_matches(key: Key, pressed: Pressed) -> bool {
    match (key, pressed) {
        (Key::Character(expected), Pressed::Character(text)) => text@.len() > 0 && folded(text@[0])
            == folded(expected),
        (Key::Named { key: expected, .. }, Pressed::Named { key: actual, .. }) => expected == actual,
        _ => false,
    }
}

/// Whether a pressed key with the given modifiers triggers a shortcut: the
/// modifiers must be exactly those of the shortcut.
pub open spec fn shortcut_matches(shortcut: Shortcut, pressed: Pressed, modifiers: Modifiers) -> bool {
    modifiers == shortcut.modifiers && key_matches(shortcut.key, pressed)
}

/// The modifier labels of a shortcut, each followed by `+`, in the order
/// control, alt, shift, logo; macOS names alt `Opt` and logo `Cmd`, other
/// platforms `Alt` and `Super`.
pub open spec fn modifier_prefix(modifiers: Modifiers, macos: bool) -> Seq<char> {
    (if has_flag(modifiers.bits, Modifiers::CTRL) { "Ctrl+"@ } else { Seq::empty() })
        + (if has_flag(modifiers.bits, Modifiers::ALT) {
        if macos { "Opt+"@ } else { "Alt+"@ }
    } else {
        Seq::empty()
    }) + (if has_flag(modifiers.bits, Modifiers::SHIFT) { "Shift+"@ } else { Seq::empty() }) + (
    if has_flag(modifiers.bits, Modifiers::LOGO) {
        if macos { "Cmd+"@ } else { "Super+"@ }
    } else {
        Seq::empty()
    })
}

/// The label of a named key: a short name for the keys that have one, and
/// `Key` for the others.
pub open spec fn key_name_label(name: KeyName) -> Seq<char> {
    match name {
        KeyName::Enter => "Enter"@,
        KeyName::Tab => "Tab"@,
        KeyName::Space => "Space"@,
        KeyName::Escape => "Esc"@,
        KeyName::Backspace => "Backspace"@,
        KeyName::Delete => "Delete"@,
        KeyName::ArrowUp => "Up"@,
        KeyName::ArrowDown => "Down"@,
        KeyName::ArrowLeft => "Left"@,
        KeyName::ArrowRight => "Right"@,
        _ => "Key"@,
    }
}

/// Whether `label` is the label of a shortcut on macOS (when `macos` holds)
/// or on other platforms: the pressed modifiers, then the key, such as
/// `Ctrl+Shift+P`; a character key shows in upper case.
pub open spec fn is_label(shortcut: Shortcut, macos: bool, label: Seq<char>) -> bool {
    match shortcut.key {
        Key::Character(c) => label == modifier_prefix(shortcut.modifiers, macos) + seq![ascii_upper(c)],
        Key::Named { name, .. } => label == modifier_prefix(shortcut.modifiers, macos) + key_name_label(
            name,
        ),
    }
}

fn name_label(name: KeyName) -> (label: &'static str)
    ensures
        label@ == key_name_label(name),
{
    match name {
        KeyName::Enter => "Enter",
        KeyName::Tab => "Tab",
        KeyName::Space => "Space",
        KeyName::Escape => "Esc",
        KeyName::Backspace => "Backspace",
        KeyName::Delete => "Delete",
        KeyName::ArrowUp => "Up",
        KeyName::ArrowDown => "Down",
        KeyName::ArrowLeft => "Left",
        KeyName::ArrowRight => "Right",
        _ => "Key",
    }
}

fn fold(c: char) -> (code: u32)
    ensures
        code == folded(c),
{
    let code = c as u32;
    if 65 <= code && code <= 90 {
        code + 32
    } else {
        code
    }
}

fn upper(c: char) -> (raised: char)
    ensures
        raised == ascii_upper(c),
{
    let code = c as u32;
    if 97 <= code && code <= 122 {
        ((code - 32) as u8) as char
    } else {
        c
    }
}

impl Key {
    /// A named keyboard key, with the name that the menus label it by read
    /// from it.
    pub fn named(key: Named) -> (named: Self)
        ensures
            named matches Key::Named { key: k, name } && k == key && name == named_key_name(key),
    {
        let name = key_name(key);
        Key::Named { key, name }
    }

    /// Returns `true` if the pressed key matches this key, ignoring ASCII case.
    pub fn matches(self, key: &Pressed) -> (matched: bool)
        ensures
            matched == key_matches(self, *key),
    {
        match (self, key) {
            (Key::Character(expected), Pressed::Character(text)) => {
                let text = text.as_str();
                if text.is_empty() {
                    false
                } else {
                    fold(text.get_char(0)) == fold(expected)
                }
            },
            (Key::Named { key: expected, .. }, Pressed::Named { key: actual, .. }) => same_named(
                &expected,
                actual,
            ),
            _ => false,
        }
    }
}

impl Shortcut {
    /// Creates a new keyboard shortcut.
    pub fn new(modifiers: Modifiers, key: Key) -> (shortcut: Self)
        ensures
            shortcut == (Shortcut { modifiers, key }),
    {
        Shortcut { modifiers, key }
    }

    /// Creates a platform command-key shortcut (Cmd on macOS, Ctrl elsewhere).
    pub fn command(key: Key) -> (shortcut: Self)
        ensures
            shortcut.key == key,
            shortcut.modifiers.bits == Modifiers::CTRL || shortcut.modifiers.bits == Modifiers::LOGO,
    {
        Shortcut { modifiers: Modifiers::command(), key }
    }

    /// Creates a control-key shortcut.
    pub fn control(key: Key) -> (shortcut: Self)
        ensures
            shortcut == (Shortcut { modifiers: Modifiers { bits: Modifiers::CTRL }, key }),
    {
        Shortcut { modifiers: Modifiers::from_bits(Modifiers::CTRL), key }
    }

    /// Creates a shift + platform command-key shortcut.
    pub fn shift_command(key: Key) -> (shortcut: Self)
        ensures
            shortcut.key == key,
            shortcut.modifiers.bits == Modifiers::CTRL | Modifiers::SHIFT
                || shortcut.modifiers.bits == Modifiers::LOGO | Modifiers::SHIFT,
    {
        Shortcut {
            modifiers: Modifiers::command().union(Modifiers::from_bits(Modifiers::SHIFT)),
            key,
        }
    }

    /// Returns `true` if the pressed key and modifiers trigger this shortcut.
    pub fn matches(&self, key: &Pressed, modifiers: Modifiers) -> (matched: bool)
        ensures
            matched == shortcut_matches(*self, *key, modifiers),
    {
        modifiers.bits == self.modifiers.bits && self.key.matches(key)
    }

    /// Returns the label displayed for this shortcut on macOS (when `macos`
    /// holds) or on other platforms: the pressed modifiers, then the key,
    /// such as `Ctrl+Shift+P`.
    pub fn label(&self, macos: bool) -> (label: String)
        ensures
            is_label(*self, macos, label@),
    {
        let modifiers = self.modifiers;
        let mut label = String::new();
        let ghost start = label@;
        if modifiers.control() {
            label.append("Ctrl+");
        }
        let ghost after_control = label@;
        if modifiers.alt() {
            label.append(if macos { "Opt+" } else { "Alt+" });
        }
        let ghost after_alt = label@;
        if modifiers.shift() {
            label.append("Shift+");
        }
        let ghost after_shift = label@;
        if modifiers.logo() {
            label.append(if macos { "Cmd+" } else { "Super+" });
        }
        proof {
            assert(label@ =~= modifier_prefix(self.modifiers, macos));
        }
        match self.key {
            Key::Character(c) => {
                label.push(upper(c));
                assert(label@ =~= modifier_prefix(self.modifiers, macos) + seq![ascii_upper(c)]);
            },
            Key::Named { name, .. } => {
                label.append(name_label(name));
                assert(label@ =~= modifier_prefix(self.modifiers, macos) + key_name_label(name));
                assert(is_label(*self, macos, label@));
            },
        }
        label
    }

    /// Returns the label displayed for this shortcut on this platform,
    /// which names its modifiers the macOS way when the platform command key
    /// is the logo key.
    pub fn to_string(&self) -> (label: String)
        ensures
            exists|macos: bool| #[trigger] is_label(*self, macos, label@),
    {
        let macos = Modifiers::command().logo();
        let label = self.label(macos);
        assert(is_label(*self, macos, label@));
        label
    }
}


/// A named key is labelled by its own short name: the arrows as `Up`,
/// `Down`, `Left` and `Right`, Escape as `Esc`, Enter, Tab, Space,
/// Backspace and Delete by their names, and every other key as `Key`.
pub proof fn law_named_key_labels()
    ensures
        key_name_label(KeyName::Enter) == "Enter"@,
        key_name_label(KeyName::Tab) == "Tab"@,
        key_name_label(KeyName::Space) == "Space"@,
        key_name_label(KeyName::Escape) == "Esc"@,
        key_name_label(KeyName::Backspace) == "Backspace"@,
        key_name_label(KeyName::Delete) == "Delete"@,
        key_name_label(KeyName::ArrowUp) == "Up"@,
        key_name_label(KeyName::ArrowDown) == "Down"@,
        key_name_label(KeyName::ArrowLeft) == "Left"@,
        key_name_label(KeyName::ArrowRight) == "Right"@,
        key_name_label(KeyName::Home) == "Key"@,
        key_name_label(KeyName::End) == "Key"@,
        key_name_label(KeyName::Other) == "Key"@,
{
}

/// The label of a shortcut on a named key ends with the label of that key's
/// own name, after the modifier labels.
pub proof fn law_named_shortcut_label(modifiers: Modifiers, key: Key, macos: bool, label: Seq<char>)
    requires
        key matches Key::Named { key: k, name } && name == named_key_name(k),
        is_label(Shortcut { modifiers, key }, macos, label),
    ensures
        key matches Key::Named { key: k, .. } && label == modifier_prefix(modifiers, macos)
            + key_name_label(named_key_name(k)),
{
}

/// A letter shortcut matches the typed letter in either case, and a
/// shortcut never matches when the pressed modifiers differ from its own.
pub proof fn law_shortcut_matching(
    shortcut: Shortcut,
    pressed: Pressed,
    modifiers: Modifiers,
    c: char,
    text: String,
)
    ensures
        (97 <= c as u32 <= 122 && text@.len() > 0 && (text@[0] as u32 == c as u32 || text@[0] as u32
            + 32 == c as u32)) ==> key_matches(Key::Character(c), Pressed::Character(text)),
        modifiers != shortcut.modifiers ==> !shortcut_matches(shortcut, pressed, modifiers),
{
}
} // verus!
