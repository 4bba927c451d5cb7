//! Text: its built-in style variants.
use vstd::prelude::*;
use crate::token::{ContentRole, Intent, SemanticRole, TokenRole};

verus! {

/// A built-in text style.
#[derive(Debug, Default, Clone, Copy, PartialEq, Eq, Structural)]
#[non_exhaustive]
pub enum Variant {
    /// Inherits the foreground color from the surrounding renderer or container.
    #[default]
    Inherited,
    /// Headings, values, and primary document content.
    Primary,
    /// Body copy, labels, active controls, and icons.
    Secondary,
    /// Readable metadata, hints, and placeholders.
    Muted,
    /// Nonessential icons and incidental text.
    Decorative,
    /// Unavailable controls and values.
    Disabled,
    /// Standalone text carrying semantic intent.
    Semantic(Intent),
}


/// The color token of a text variant: the content role of the same name,
/// or the foreground of a semantic intent; inherited text has none.
pub open spec fn text_token(variant: Variant) -> Option<TokenRole> {
    match variant {
        Variant::Inherited => None,
        Variant::Primary => Some(TokenRole::Content(ContentRole::Primary)),
        Variant::Secondary => Some(TokenRole::Content(ContentRole::Secondary)),
        Variant::Muted => Some(TokenRole::Content(ContentRole::Muted)),
        Variant::Decorative => Some(TokenRole::Content(ContentRole::Decorative)),
        Variant::Disabled => Some(TokenRole::Content(ContentRole::Disabled)),
        Variant::Semantic(intent) => Some(TokenRole::Semantic(intent, SemanticRole::Foreground)),
    }
}

/// Returns the color token of a text variant, if it sets a color.
pub fn color_token(variant: Variant) -> (token: Option<TokenRole>)
    ensures
        token == text_token(variant),
{
    match variant {
        Variant::Inherited => None,
        Variant::Primary => Some(TokenRole::Content(ContentRole::Primary)),
        Variant::Secondary => Some(TokenRole::Content(ContentRole::Secondary)),
        Variant::Muted => Some(TokenRole::Content(ContentRole::Muted)),
        Variant::Decorative => Some(TokenRole::Content(ContentRole::Decorative)),
        Variant::Disabled => Some(TokenRole::Content(ContentRole::Disabled)),
        Variant::Semantic(intent) => Some(TokenRole::Semantic(intent, SemanticRole::Foreground)),
    }
}


/// Text of a content variant is drawn in the content role of the same name,
/// semantic text in its intent's foreground, and inherited text in no color
/// of its own.
pub proof fn law_text_tokens(intent: Intent)
    ensures
        text_token(Variant::Inherited) is None,
        text_token(Variant::Primary) == Some(TokenRole::Content(ContentRole::Primary)),
        text_token(Variant::Secondary) == Some(TokenRole::Content(ContentRole::Secondary)),
        text_token(Variant::Muted) == Some(TokenRole::Content(ContentRole::Muted)),
        text_token(Variant::Decorative) == Some(TokenRole::Content(ContentRole::Decorative)),
        text_token(Variant::Disabled) == Some(TokenRole::Content(ContentRole::Disabled)),
        text_token(Variant::Semantic(intent)) == Some(
            TokenRole::Semantic(intent, SemanticRole::Foreground),
        ),
{
}
} // verus!
