//! Scrollable regions: their built-in style variants.
use vstd::prelude::*;


verus! {

/// A built-in scrollable style.
#[derive(Debug, Default, Clone, Copy, PartialEq, Eq, Structural)]
#[non_exhaustive]
pub enum Variant {
    /// A visible track and thumb for primary scrolling regions.
    #[default]
    Standard,
    /// A quiet thumb without a persistent track fill.
    Subtle,
}

} // verus!
