//! The shared look of editable fields.
use vstd::prelude::*;

verus! {

/// A built-in field style.
#[derive(Debug, Clone, Copy, PartialEq, Eq, Structural)]
pub enum Variant {
    Standard,
    Subtle,
    Code,
    Invalid,
}

/// The interaction status of a field.
#[derive(Debug, Clone, Copy, PartialEq, Eq, Structural)]
pub enum Status {
    Active,
    Hovered,
    Focused,
    Disabled,
}

} // verus!
