//! Progress bars: their built-in style variants and the tokens they draw with.
use vstd::prelude::*;
use crate::token::{Intent, SemanticRole, TokenRole};

verus! {

/// A built-in progress bar style.
#[derive(Debug, Default, Clone, Copy, PartialEq, Eq, Structural)]
#[non_exhaustive]
pub enum Variant {
    /// A neutral track with the accent indicator.
    #[default]
    Standard,
    /// A progress indicator carrying explicit semantic intent.
    Semantic(Intent),
}


/// The token of a progress bar's indicator: the accent indicator, or the
/// indicator of a semantic intent.
pub open spec fn bar_token(variant: Variant) -> TokenRole {
    match variant {
        Variant::Standard => TokenRole::Semantic(Intent::Accent, SemanticRole::Indicator),
        Variant::Semantic(intent) => TokenRole::Semantic(intent, SemanticRole::Indicator),
    }
}

/// Returns the token of a progress bar's indicator.
pub fn indicator_token(variant: Variant) -> (token: TokenRole)
    ensures
        token == bar_token(variant),
{
    match variant {
        Variant::Standard => TokenRole::Semantic(Intent::Accent, SemanticRole::Indicator),
        Variant::Semantic(intent) => TokenRole::Semantic(intent, SemanticRole::Indicator),
    }
}


/// A progress bar's indicator is the indicator of an intent: the accent for
/// the standard bar, its own intent for a semantic bar.
pub proof fn law_bar_tokens(intent: Intent)
    ensures
        bar_token(Variant::Standard) == TokenRole::Semantic(Intent::Accent, SemanticRole::Indicator),
        bar_token(Variant::Semantic(intent)) == TokenRole::Semantic(intent, SemanticRole::Indicator),
{
}
} // verus!
