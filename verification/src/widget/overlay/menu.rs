//! Menu overlays: their built-in style variants.
use vstd::prelude::*;

verus! {

/// A built-in menu style.
#[derive(Debug, Default, Clone, Copy, PartialEq, Eq, Structural)]
#[non_exhaustive]
pub enum Variant {
    /// A floating menu with an ordinary visible edge.
    #[default]
    Standard,
    /// A floating menu with a quieter edge.
    Subtle,
}

} // verus!
