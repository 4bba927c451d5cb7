//! Sliders: their built-in style variants and the tokens they draw with.
use vstd::prelude::*;
use crate::token::{BorderRole, BorderWidth, Intent, SemanticRole, TokenRole};

verus! {

/// A built-in slider style.
#[derive(Debug, Default, Clone, Copy, PartialEq, Eq, Structural)]
#[non_exhaustive]
pub enum Variant {
    /// A neutral track with the accent indicator.
    #[default]
    Standard,
    /// A range control carrying explicit semantic intent.
    Semantic(Intent),
}


/// The border of a slider's handle: none at rest; the intent's border at
/// control width while hovered; the focus border at focus width while
/// dragged. A standard slider uses the accent intent.
pub open spec fn handle_border_of(variant: Variant, hovered: bool, dragged: bool) -> Option<(TokenRole, BorderWidth)> {
    let intent = match variant {
        Variant::Standard => Intent::Accent,
        Variant::Semantic(intent) => intent,
    };
    if dragged {
        Some((TokenRole::Border(BorderRole::Focus), BorderWidth::Focus))
    } else if hovered {
        Some((TokenRole::Semantic(intent, SemanticRole::Border), BorderWidth::Control))
    } else {
        None
    }
}

/// Returns the border of a slider's handle while `hovered` or `dragged`.
pub fn handle_border(variant: Variant, hovered: bool, dragged: bool) -> (border: Option<(TokenRole, BorderWidth)>)
    ensures
        border == handle_border_of(variant, hovered, dragged),
{
    let intent = match variant {
        Variant::Standard => Intent::Accent,
        Variant::Semantic(intent) => intent,
    };
    if dragged {
        Some((TokenRole::Border(BorderRole::Focus), BorderWidth::Focus))
    } else if hovered {
        Some((TokenRole::Semantic(intent, SemanticRole::Border), BorderWidth::Control))
    } else {
        None
    }
}


/// A handle at rest has no border; a hovered handle shows the border of
/// its intent (the accent for a standard slider) at control width; a
/// dragged handle shows the focus border at focus width.
pub proof fn law_handle_borders(intent: Intent, hovered: bool)
    ensures
        handle_border_of(Variant::Standard, false, false) is None,
        handle_border_of(Variant::Semantic(intent), false, false) is None,
        handle_border_of(Variant::Standard, true, false) == Some(
            (TokenRole::Semantic(Intent::Accent, SemanticRole::Border), BorderWidth::Control),
        ),
        handle_border_of(Variant::Semantic(intent), true, false) == Some(
            (TokenRole::Semantic(intent, SemanticRole::Border), BorderWidth::Control),
        ),
        handle_border_of(Variant::Standard, hovered, true) == Some(
            (TokenRole::Border(BorderRole::Focus), BorderWidth::Focus),
        ),
        handle_border_of(Variant::Semantic(intent), hovered, true) == Some(
            (TokenRole::Border(BorderRole::Focus), BorderWidth::Focus),
        ),
{
}
} // verus!
