//! Togglers: their built-in style variants and the tokens they draw with.
use vstd::prelude::*;
use crate::token::{BorderRole, Intent, SemanticRole, TokenRole};

verus! {

/// A built-in toggler style.
#[derive(Debug, Default, Clone, Copy, PartialEq, Eq, Structural)]
#[non_exhaustive]
pub enum Variant {
    /// A standard binary preference.
    #[default]
    Standard,
    /// A control whose value is invalid.
    Invalid,
    /// A toggled state carrying explicit semantic intent.
    Semantic(Intent),
}


/// The intent whose roles a toggler draws with: accent, danger when
/// invalid, or its own intent.
pub open spec fn toggler_intent(variant: Variant) -> Intent {
    match variant {
        Variant::Standard => Intent::Accent,
        Variant::Invalid => Intent::Danger,
        Variant::Semantic(intent) => intent,
    }
}

/// The border token of an enabled toggler: an invalid toggler keeps the
/// danger border; a toggled one takes its intent's border, or the selected
/// border for the standard variant; an untoggled one the strong border.
pub open spec fn toggler_border(variant: Variant, is_toggled: bool) -> TokenRole {
    match variant {
        Variant::Invalid => TokenRole::Semantic(Intent::Danger, SemanticRole::Border),
        Variant::Semantic(intent) => if is_toggled {
            TokenRole::Semantic(intent, SemanticRole::Border)
        } else {
            TokenRole::Border(BorderRole::Strong)
        },
        Variant::Standard => TokenRole::Border(
            if is_toggled { BorderRole::Selected } else { BorderRole::Strong },
        ),
    }
}

/// Returns the intent whose roles a toggler draws with.
pub fn intent(variant: Variant) -> (intent: Intent)
    ensures
        intent == toggler_intent(variant),
{
    match variant {
        Variant::Standard => Intent::Accent,
        Variant::Invalid => Intent::Danger,
        Variant::Semantic(intent) => intent,
    }
}

/// Returns the border token of an enabled toggler.
pub fn border_token(variant: Variant, is_toggled: bool) -> (token: TokenRole)
    ensures
        token == toggler_border(variant, is_toggled),
{
    match variant {
        Variant::Invalid => TokenRole::Semantic(Intent::Danger, SemanticRole::Border),
        Variant::Semantic(intent) => if is_toggled {
            TokenRole::Semantic(intent, SemanticRole::Border)
        } else {
            TokenRole::Border(BorderRole::Strong)
        },
        Variant::Standard => TokenRole::Border(
            if is_toggled {
                BorderRole::Selected
            } else {
                BorderRole::Strong
            },
        ),
    }
}


/// A toggler draws with the accent roles, the danger roles when invalid,
/// or its own intent's roles; its border is the strong border until it is
/// toggled, then the selected border or its intent's border, while an
/// invalid toggler keeps the danger border throughout.
pub proof fn law_toggler_tokens(intent: Intent, is_toggled: bool)
    ensures
        toggler_intent(Variant::Standard) == Intent::Accent,
        toggler_intent(Variant::Invalid) == Intent::Danger,
        toggler_intent(Variant::Semantic(intent)) == intent,
        toggler_border(Variant::Standard, false) == TokenRole::Border(BorderRole::Strong),
        toggler_border(Variant::Standard, true) == TokenRole::Border(BorderRole::Selected),
        toggler_border(Variant::Semantic(intent), false) == TokenRole::Border(BorderRole::Strong),
        toggler_border(Variant::Semantic(intent), true) == TokenRole::Semantic(
            intent,
            SemanticRole::Border,
        ),
        toggler_border(Variant::Invalid, is_toggled) == TokenRole::Semantic(
            Intent::Danger,
            SemanticRole::Border,
        ),
{
}
} // verus!
