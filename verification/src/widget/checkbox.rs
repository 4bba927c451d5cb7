//! Checkboxes: their built-in style variants and the tokens they draw with.
use vstd::prelude::*;
use crate::token::{BorderRole, Intent, SemanticRole, TokenRole};


verus! {

/// A built-in checkbox style.
#[derive(Debug, Default, Clone, Copy, PartialEq, Eq, Structural)]
#[non_exhaustive]
pub enum Variant {
    /// A standard binary control.
    #[default]
    Standard,
    /// A control whose value is invalid.
    Invalid,
}


/// What an enabled checkbox draws with.
#[derive(Debug, Clone, Copy, PartialEq, Eq, Structural)]
pub enum Marks {
    /// The accent solid fill, with the accent border.
    Solid,
    /// The field surface, with the check in `icon` and the edge in `border`.
    Outlined { icon: TokenRole, border: TokenRole },
}

/// What an enabled checkbox draws with: a checked standard box is accent
/// solid; otherwise the accent indicator on the strong border, or the
/// danger indicator and border when invalid.
pub open spec fn checkbox_marks(variant: Variant, is_checked: bool) -> Marks {
    if variant == Variant::Standard && is_checked {
        Marks::Solid
    } else {
        match variant {
            Variant::Standard => Marks::Outlined {
                icon: TokenRole::Semantic(Intent::Accent, SemanticRole::Indicator),
                border: TokenRole::Border(BorderRole::Strong),
            },
            Variant::Invalid => Marks::Outlined {
                icon: TokenRole::Semantic(Intent::Danger, SemanticRole::Indicator),
                border: TokenRole::Semantic(Intent::Danger, SemanticRole::Border),
            },
        }
    }
}

/// Returns what an enabled checkbox draws with.
pub fn marks(variant: Variant, is_checked: bool) -> (marks: Marks)
    ensures
        marks == checkbox_marks(variant, is_checked),
{
    match variant {
        Variant::Standard => if is_checked {
            Marks::Solid
        } else {
            Marks::Outlined {
                icon: TokenRole::Semantic(Intent::Accent, SemanticRole::Indicator),
                border: TokenRole::Border(BorderRole::Strong),
            }
        },
        Variant::Invalid => Marks::Outlined {
            icon: TokenRole::Semantic(Intent::Danger, SemanticRole::Indicator),
            border: TokenRole::Semantic(Intent::Danger, SemanticRole::Border),
        },
    }
}


/// Only a checked standard checkbox is filled; an unchecked standard one
/// draws the accent indicator on the strong border, and an invalid one the
/// danger indicator and border, checked or not.
pub proof fn law_checkbox_marks(is_checked: bool)
    ensures
        checkbox_marks(Variant::Standard, true) == Marks::Solid,
        checkbox_marks(Variant::Standard, false) == (Marks::Outlined {
            icon: TokenRole::Semantic(Intent::Accent, SemanticRole::Indicator),
            border: TokenRole::Border(BorderRole::Strong),
        }),
        checkbox_marks(Variant::Invalid, is_checked) == (Marks::Outlined {
            icon: TokenRole::Semantic(Intent::Danger, SemanticRole::Indicator),
            border: TokenRole::Semantic(Intent::Danger, SemanticRole::Border),
        }),
{
}
} // verus!
