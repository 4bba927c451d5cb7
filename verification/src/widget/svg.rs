//! SVG images: their built-in style variants and the tokens they draw with.
use vstd::prelude::*;
use crate::token::{ContentRole, Intent, SemanticRole, TokenRole};

verus! {

/// A built-in SVG style.
#[derive(Debug, Default, Clone, Copy, PartialEq, Eq, Structural)]
#[non_exhaustive]
pub enum Variant {
    /// Preserves the source artwork's original colors.
    #[default]
    Original,
    /// A symbolic icon using primary content color.
    Primary,
    /// A symbolic icon using secondary content color.
    Secondary,
    /// A symbolic icon using muted content color.
    Muted,
    /// A symbolic icon carrying explicit semantic intent.
    Semantic(Intent),
}


/// The color token of an SVG variant: primary icons stay primary;
/// secondary and muted icons brighten by one step while hovered; semantic
/// icons use their intent's foreground; original artwork keeps its colors.
pub open spec fn svg_token(variant: Variant, hovered: bool) -> Option<TokenRole> {
    match variant {
        Variant::Original => None,
        Variant::Primary => Some(TokenRole::Content(ContentRole::Primary)),
        Variant::Secondary => Some(TokenRole::Content(
            if hovered { ContentRole::Primary } else { ContentRole::Secondary },
        )),
        Variant::Muted => Some(TokenRole::Content(
            if hovered { ContentRole::Secondary } else { ContentRole::Muted },
        )),
        Variant::Semantic(intent) => Some(TokenRole::Semantic(intent, SemanticRole::Foreground)),
    }
}

/// Returns the color token of an SVG variant, idle or `hovered`, if it
/// recolors the artwork.
pub fn color_token(variant: Variant, hovered: bool) -> (token: Option<TokenRole>)
    ensures
        token == svg_token(variant, hovered),
{
    match variant {
        Variant::Original => None,
        Variant::Primary => Some(TokenRole::Content(ContentRole::Primary)),
        Variant::Secondary => Some(TokenRole::Content(
            if hovered {
                ContentRole::Primary
            } else {
                ContentRole::Secondary
            },
        )),
        Variant::Muted => Some(TokenRole::Content(
            if hovered {
                ContentRole::Secondary
            } else {
                ContentRole::Muted
            },
        )),
        Variant::Semantic(intent) => Some(TokenRole::Semantic(intent, SemanticRole::Foreground)),
    }
}


/// An idle icon is drawn in the content role of its variant's name, a
/// semantic icon in its intent's foreground whether hovered or not, and an
/// original one in its own colors; hovering brightens secondary icons to
/// primary and muted icons to secondary, and leaves primary icons as they are.
pub proof fn law_svg_tokens(intent: Intent, hovered: bool)
    ensures
        svg_token(Variant::Original, hovered) is None,
        svg_token(Variant::Primary, hovered) == Some(TokenRole::Content(ContentRole::Primary)),
        svg_token(Variant::Secondary, false) == Some(TokenRole::Content(ContentRole::Secondary)),
        svg_token(Variant::Secondary, true) == Some(TokenRole::Content(ContentRole::Primary)),
        svg_token(Variant::Muted, false) == Some(TokenRole::Content(ContentRole::Muted)),
        svg_token(Variant::Muted, true) == Some(TokenRole::Content(ContentRole::Secondary)),
        svg_token(Variant::Semantic(intent), hovered) == Some(
            TokenRole::Semantic(intent, SemanticRole::Foreground),
        ),
{
}
} // verus!
