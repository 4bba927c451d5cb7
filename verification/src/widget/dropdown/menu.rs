//! The menu that a dropdown opens: its style variants and what lies under
//! the cursor.
use vstd::prelude::*;

verus! {

/// A built-in dropdown menu style.
#[derive(Debug, Default, Clone, Copy, PartialEq, Eq, Structural)]
#[non_exhaustive]
pub enum Variant {
    #[default]
    Standard,
    Subtle,
}

/// What lies under the cursor in an open dropdown menu.
#[derive(Debug, Clone, Copy, PartialEq, Eq, Structural)]
pub enum Hit {
    /// A point outside the menu.
    Outside,
    /// The menu's padding, or space below its rows.
    Chrome,
    /// The row at this index.
    Row(usize),
}

} // verus!
