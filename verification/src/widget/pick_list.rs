//! Pick lists: their built-in style variants and the tokens they draw with.
use vstd::prelude::*;
use crate::token::{BorderRole, BorderWidth, Intent, SemanticRole, TokenRole};


verus! {

/// A built-in pick list style.
#[derive(Debug, Default, Clone, Copy, PartialEq, Eq, Structural)]
#[non_exhaustive]
pub enum Variant {
    /// An ordinary choice field with a strong boundary.
    #[default]
    Standard,
    /// A lower-emphasis choice field.
    Subtle,
    /// A choice field whose value is invalid.
    Invalid,
}


/// The border of a pick list: an invalid list keeps the danger border, at
/// focus width while opened; otherwise an opened list takes the focus
/// border, a subtle list a hairline standard border, and a standard list
/// the strong control border.
pub open spec fn pick_list_border(variant: Variant, opened: bool) -> (TokenRole, BorderWidth) {
    match variant {
        Variant::Invalid => (
            TokenRole::Semantic(Intent::Danger, SemanticRole::Border),
            if opened { BorderWidth::Focus } else { BorderWidth::Control },
        ),
        _ => if opened {
            (TokenRole::Border(BorderRole::Focus), BorderWidth::Focus)
        } else {
            match variant {
                Variant::Subtle => (TokenRole::Border(BorderRole::Standard), BorderWidth::Hairline),
                _ => (TokenRole::Border(BorderRole::Strong), BorderWidth::Control),
            }
        },
    }
}

/// Returns the border token and width of a pick list that is `opened` or not.
pub fn border(variant: Variant, opened: bool) -> (border: (TokenRole, BorderWidth))
    ensures
        border == pick_list_border(variant, opened),
{
    match variant {
        Variant::Invalid => (
            TokenRole::Semantic(Intent::Danger, SemanticRole::Border),
            if opened {
                BorderWidth::Focus
            } else {
                BorderWidth::Control
            },
        ),
        Variant::Standard => if opened {
            (TokenRole::Border(BorderRole::Focus), BorderWidth::Focus)
        } else {
            (TokenRole::Border(BorderRole::Strong), BorderWidth::Control)
        },
        Variant::Subtle => if opened {
            (TokenRole::Border(BorderRole::Focus), BorderWidth::Focus)
        } else {
            (TokenRole::Border(BorderRole::Standard), BorderWidth::Hairline)
        },
    }
}


/// An opened pick list takes the focus width, an invalid one the danger
/// border; otherwise an opened list shows the focus border, a subtle list a
/// hairline standard border, and a standard list a strong control border.
pub proof fn law_pick_list_borders(opened: bool)
    ensures
        pick_list_border(Variant::Invalid, true) == (
            TokenRole::Semantic(Intent::Danger, SemanticRole::Border),
            BorderWidth::Focus,
        ),
        pick_list_border(Variant::Invalid, false) == (
            TokenRole::Semantic(Intent::Danger, SemanticRole::Border),
            BorderWidth::Control,
        ),
        pick_list_border(Variant::Standard, true) == (TokenRole::Border(BorderRole::Focus), BorderWidth::Focus),
        pick_list_border(Variant::Subtle, true) == (TokenRole::Border(BorderRole::Focus), BorderWidth::Focus),
        pick_list_border(Variant::Standard, false) == (TokenRole::Border(BorderRole::Strong), BorderWidth::Control),
        pick_list_border(Variant::Subtle, false) == (TokenRole::Border(BorderRole::Standard), BorderWidth::Hairline),
{
}
} // verus!
