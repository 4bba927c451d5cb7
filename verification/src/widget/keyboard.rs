//! Pressed keys and modifiers, as the menu widgets read them.
use vstd::prelude::*;
use iced_core::keyboard::key::Named;

verus! {

/// A key with an established name, such as `Escape` or `ArrowDown`: a
/// field-less enum whose variants Verus reads.
#[verifier::external_type_specification]
pub struct ExNamed(iced_core::keyboard::key::Named);

/// `Clone::clone` of `iced_core::keyboard::key::Named`, a `Copy` enum: the
/// clone is the same key.
pub assume_specification[ <iced_core::keyboard::key::Named as Clone>::clone ](named: &Named) -> (copy: Named)
    ensures
        copy == *named,
;

/// Compares two named keys with the `PartialEq` that `iced_core` derives for
/// `keyboard::key::Named`, a field-less enum: they are equal exactly when they
/// are the same key.
#[verifier::external_body]
pub(crate) fn same_named(a: &Named, b: &Named) -> (same: bool)
    ensures
        same == (*a == *b),
{
    *a == *b
}

/// The named keys that the menus act on or label by name.
#[derive(Debug, Clone, Copy, PartialEq, Eq, Structural)]
pub enum KeyName {
    Enter,
    Tab,
    Space,
    Escape,
    Backspace,
    Delete,
    ArrowUp,
    ArrowDown,
    ArrowLeft,
    ArrowRight,
    Home,
    End,
    /// Any other named key.
    Other,
}

/// The name that the menus act on of a named key: the name of the same key
/// for Enter, Tab, Space, Escape, Backspace, Delete, the four arrows, Home
/// and End, and `Other` for every other key.
pub open spec fn named_key_name(named: Named) -> KeyName {
    match named {
        Named::Enter => KeyName::Enter,
        Named::Tab => KeyName::Tab,
        Named::Space => KeyName::Space,
        Named::Escape => KeyName::Escape,
        Named::Backspace => KeyName::Backspace,
        Named::Delete => KeyName::Delete,
        Named::ArrowUp => KeyName::ArrowUp,
        Named::ArrowDown => KeyName::ArrowDown,
        Named::ArrowLeft => KeyName::ArrowLeft,
        Named::ArrowRight => KeyName::ArrowRight,
        Named::Home => KeyName::Home,
        Named::End => KeyName::End,
        _ => KeyName::Other,
    }
}

/// Tells apart the variants of `iced_core::keyboard::key::Named` that the
/// menus act on; every other variant is `Other`.
pub(crate) fn key_name(named: Named) -> (name: KeyName)
    ensures
        name == named_key_name(named),
{
    match named {
        Named::Enter => KeyName::Enter,
        Named::Tab => KeyName::Tab,
        Named::Space => KeyName::Space,
        Named::Escape => KeyName::Escape,
        Named::Backspace => KeyName::Backspace,
        Named::Delete => KeyName::Delete,
        Named::ArrowUp => KeyName::ArrowUp,
        Named::ArrowDown => KeyName::ArrowDown,
        Named::ArrowLeft => KeyName::ArrowLeft,
        Named::ArrowRight => KeyName::ArrowRight,
        Named::Home => KeyName::Home,
        Named::End => KeyName::End,
        _ => KeyName::Other,
    }
}

/// Each key that the menus act on is read as its own name and no other key
/// is: an iced key gets the name `ArrowDown` exactly when it is the down
/// arrow, and likewise for every name but `Other`.
pub proof fn law_keys_keep_their_names(named: Named)
    ensures
        named_key_name(named) == KeyName::Enter <==> named == Named::Enter,
        named_key_name(named) == KeyName::Tab <==> named == Named::Tab,
        named_key_name(named) == KeyName::Space <==> named == Named::Space,
        named_key_name(named) == KeyName::Escape <==> named == Named::Escape,
        named_key_name(named) == KeyName::Backspace <==> named == Named::Backspace,
        named_key_name(named) == KeyName::Delete <==> named == Named::Delete,
        named_key_name(named) == KeyName::ArrowUp <==> named == Named::ArrowUp,
        named_key_name(named) == KeyName::ArrowDown <==> named == Named::ArrowDown,
        named_key_name(named) == KeyName::ArrowLeft <==> named == Named::ArrowLeft,
        named_key_name(named) == KeyName::ArrowRight <==> named == Named::ArrowRight,
        named_key_name(named) == KeyName::Home <==> named == Named::Home,
        named_key_name(named) == KeyName::End <==> named == Named::End,
{
}

/// A pressed key, as the menus read it.
#[derive(Debug, Clone)]
pub enum Pressed {
    /// A key with an established name, with the name that the menus act on.
    Named { key: Named, name: KeyName },
    /// The text that the key typed.
    Character(String),
    /// A key that could not be identified.
    Unidentified,
}

impl Pressed {
    /// A pressed named key, with the name that the menus act on read from it.
    pub fn named(key: Named) -> (pressed: Self)
        ensures
            pressed matches Pressed::Named { key: k, name } && k == key && name == named_key_name(key),
    {
        let name = key_name(key);
        Pressed::Named { key, name }
    }

    /// Returns the name of a named key that the menus act on, and `Other`
    /// for any other key.
    pub fn name(&self) -> (name: KeyName)
        ensures
            name == match *self {
                Pressed::Named { name, .. } => name,
                _ => KeyName::Other,
            },
    {
        match self {
            Pressed::Named { name, .. } => *name,
            _ => KeyName::Other,
        }
    }
}

/// The state of the keyboard modifiers, as bit flags.
#[derive(Debug, Clone, Copy, PartialEq, Eq, Structural)]
pub struct Modifiers {
    /// The flags: `SHIFT`, `CTRL`, `ALT` and `LOGO` bits.
    pub bits: u32,
}

/// Whether every flag of `flag` is set in `bits`.
pub open spec fn has_flag(bits: u32, flag: u32) -> bool {
    bits & flag == flag
}

/// The platform command key of `iced_core`: `LOGO` on macOS, `CTRL` elsewhere.
///
/// Claimed: the bits are those of one of the two keys, as the source of
/// `iced_core::keyboard::Modifiers::COMMAND` shows; which one depends on the
/// target platform.
#[verifier::external_body]
fn command_bits() -> (bits: u32)
    ensures
        bits == Modifiers::CTRL || bits == Modifiers::LOGO,
{
    iced_core::keyboard::Modifiers::COMMAND.bits()
}

impl Modifiers {
    /// The bit of the "shift" key.
    pub const SHIFT: u32 = 4;
    /// The bit of the "control" key.
    pub const CTRL: u32 = 32;
    /// The bit of the "alt" key.
    pub const ALT: u32 = 256;
    /// The bit of the "windows", "command" or "super" key.
    pub const LOGO: u32 = 2048;

    /// Modifiers made of the given flags.
    pub fn from_bits(bits: u32) -> (modifiers: Self)
        ensures
            modifiers.bits == bits,
    {
        Modifiers { bits }
    }

    /// No modifier.
    pub fn none() -> (modifiers: Self)
        ensures
            modifiers.bits == 0,
    {
        Modifiers { bits: 0 }
    }

    /// The platform command key: `LOGO` on macOS, `CTRL` elsewhere.
    pub fn command() -> (modifiers: Self)
        ensures
            modifiers.bits == Modifiers::CTRL || modifiers.bits == Modifiers::LOGO,
    {
        Modifiers { bits: command_bits() }
    }

    /// The flags of both.
    pub fn union(self, other: Self) -> (modifiers: Self)
        ensures
            modifiers.bits == self.bits | other.bits,
    {
        Modifiers { bits: self.bits | other.bits }
    }

    /// Whether the "shift" key is pressed.
    pub fn shift(self) -> (pressed: bool)
        ensures
            pressed == has_flag(self.bits, Modifiers::SHIFT),
    {
        self.bits & Modifiers::SHIFT == Modifiers::SHIFT
    }

    /// Whether the "control" key is pressed.
    pub fn control(self) -> (pressed: bool)
        ensures
            pressed == has_flag(self.bits, Modifiers::CTRL),
    {
        self.bits & Modifiers::CTRL == Modifiers::CTRL
    }

    /// Whether the "alt" key is pressed.
    pub fn alt(self) -> (pressed: bool)
        ensures
            pressed == has_flag(self.bits, Modifiers::ALT),
    {
        self.bits & Modifiers::ALT == Modifiers::ALT
    }

    /// Whether the "logo" key is pressed.
    pub fn logo(self) -> (pressed: bool)
        ensures
            pressed == has_flag(self.bits, Modifiers::LOGO),
    {
        self.bits & Modifiers::LOGO == Modifiers::LOGO
    }
}

} // verus!
