//! Rules: their built-in style variants and the tokens they draw with.
use vstd::prelude::*;
use crate::token::{BorderRole, Intent, SemanticRole, TokenRole};

verus! {

/// A built-in rule style.
#[derive(Debug, Default, Clone, Copy, PartialEq, Eq, Structural)]
#[non_exhaustive]
pub enum Variant {
    /// A decorative, low-emphasis separator.
    Subtle,
    /// An ordinary visible separator.
    #[default]
    Standard,
    /// A strongly emphasized separator.
    Strong,
    /// A separator carrying explicit semantic intent.
    Semantic(Intent),
}


/// The color token of a rule variant: the border role of the same name, or
/// the border of a semantic intent.
pub open spec fn rule_token(variant: Variant) -> TokenRole {
    match variant {
        Variant::Subtle => TokenRole::Border(BorderRole::Subtle),
        Variant::Standard => TokenRole::Border(BorderRole::Standard),
        Variant::Strong => TokenRole::Border(BorderRole::Strong),
        Variant::Semantic(intent) => TokenRole::Semantic(intent, SemanticRole::Border),
    }
}

/// Returns the color token of a rule variant.
pub fn color_token(variant: Variant) -> (token: TokenRole)
    ensures
        token == rule_token(variant),
{
    match variant {
        Variant::Subtle => TokenRole::Border(BorderRole::Subtle),
        Variant::Standard => TokenRole::Border(BorderRole::Standard),
        Variant::Strong => TokenRole::Border(BorderRole::Strong),
        Variant::Semantic(intent) => TokenRole::Semantic(intent, SemanticRole::Border),
    }
}


/// A rule is drawn in the border role of its variant's name, or in a
/// semantic intent's border.
pub proof fn law_rule_tokens(intent: Intent)
    ensures
        rule_token(Variant::Subtle) == TokenRole::Border(BorderRole::Subtle),
        rule_token(Variant::Standard) == TokenRole::Border(BorderRole::Standard),
        rule_token(Variant::Strong) == TokenRole::Border(BorderRole::Strong),
        rule_token(Variant::Semantic(intent)) == TokenRole::Semantic(intent, SemanticRole::Border),
{
}
} // verus!
