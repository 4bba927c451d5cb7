//! Containers: their built-in style variants.
use vstd::prelude::*;
use crate::token::Intent;

verus! {

/// The visual treatment of a semantic container.
#[derive(Debug, Clone, Copy, PartialEq, Eq, Structural)]
#[non_exhaustive]
pub enum SemanticStyle {
    /// A high-emphasis semantic fill.
    Solid,
    /// A low-emphasis semantic fill.
    Soft,
}

/// A built-in container style.
#[derive(Debug, Default, Clone, Copy, PartialEq, Eq, Structural)]
#[non_exhaustive]
pub enum Variant {
    /// A composition wrapper with no visual treatment.
    #[default]
    Transparent,
    /// Recessed content such as code wells and terminal output.
    Sunken,
    /// Receding application chrome such as sidebars.
    Canvas,
    /// Local recesses such as tracks and grouped control backgrounds.
    Inset,
    /// The primary content plane.
    Surface,
    /// Inline panels and grouped content without a shadow.
    Raised,
    /// Content placed above another plane.
    Overlay,
    /// Editable content and dense data planes.
    Field,
    /// A container carrying explicit semantic intent and treatment.
    Semantic { intent: Intent, style: SemanticStyle },
    /// An anchored floating surface.
    Popover,
    /// A dialog surface placed above a separate scrim.
    Modal,
}

} // verus!
