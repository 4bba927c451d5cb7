//! Radio buttons: their built-in style variants and the tokens they draw with.
use vstd::prelude::*;
use crate::token::{BorderRole, Intent, SemanticRole, TokenRole};


verus! {

/// A built-in radio style.
#[derive(Debug, Default, Clone, Copy, PartialEq, Eq, Structural)]
#[non_exhaustive]
pub enum Variant {
    /// A standard single-choice control.
    #[default]
    Standard,
    /// A control whose selection is invalid.
    Invalid,
}


/// The tokens of a radio button's dot and border: the accent indicator,
/// with the selected border once selected and the strong border before; an
/// invalid radio uses the danger indicator and border.
pub open spec fn radio_tokens(variant: Variant, is_selected: bool) -> (TokenRole, TokenRole) {
    match variant {
        Variant::Standard => (
            TokenRole::Semantic(Intent::Accent, SemanticRole::Indicator),
            TokenRole::Border(if is_selected { BorderRole::Selected } else { BorderRole::Strong }),
        ),
        Variant::Invalid => (
            TokenRole::Semantic(Intent::Danger, SemanticRole::Indicator),
            TokenRole::Semantic(Intent::Danger, SemanticRole::Border),
        ),
    }
}

/// Returns the tokens of a radio button's dot and border.
pub fn dot_and_border(variant: Variant, is_selected: bool) -> (tokens: (TokenRole, TokenRole))
    ensures
        tokens == radio_tokens(variant, is_selected),
{
    match variant {
        Variant::Standard => (
            TokenRole::Semantic(Intent::Accent, SemanticRole::Indicator),
            TokenRole::Border(
                if is_selected {
                    BorderRole::Selected
                } else {
                    BorderRole::Strong
                },
            ),
        ),
        Variant::Invalid => (
            TokenRole::Semantic(Intent::Danger, SemanticRole::Indicator),
            TokenRole::Semantic(Intent::Danger, SemanticRole::Border),
        ),
    }
}


/// A standard radio draws the accent indicator, with the selected border
/// once selected and the strong border before; an invalid radio draws the
/// danger indicator and border whether selected or not.
pub proof fn law_radio_tokens(is_selected: bool)
    ensures
        radio_tokens(Variant::Standard, true) == (
            TokenRole::Semantic(Intent::Accent, SemanticRole::Indicator),
            TokenRole::Border(BorderRole::Selected),
        ),
        radio_tokens(Variant::Standard, false) == (
            TokenRole::Semantic(Intent::Accent, SemanticRole::Indicator),
            TokenRole::Border(BorderRole::Strong),
        ),
        radio_tokens(Variant::Invalid, is_selected) == (
            TokenRole::Semantic(Intent::Danger, SemanticRole::Indicator),
            TokenRole::Semantic(Intent::Danger, SemanticRole::Border),
        ),
{
}
} // verus!
