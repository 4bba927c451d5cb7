//! Tab bars: their built-in style variants.
use vstd::prelude::*;
use crate::token::ContentRole;


verus! {

/// A built-in tab bar style.
#[derive(Debug, Default, Clone, Copy, PartialEq, Eq, Structural)]
#[non_exhaustive]
pub enum Variant {
    /// Draws an accent underline beneath only the selected tab.
    #[default]
    ActiveUnderline,
    /// Draws a full rail with an accent segment beneath the selected tab.
    FullUnderline,
    /// Marks the selected tab with a rounded background.
    Rounded,
}


/// The content role of a tab's label: disabled tabs use the disabled role;
/// the selected tab and a hovered tab stand out as primary; others are muted.
pub open spec fn tab_text_role(disabled: bool, hovered: bool, is_selected: bool) -> ContentRole {
    if disabled {
        ContentRole::Disabled
    } else if is_selected || hovered {
        ContentRole::Primary
    } else {
        ContentRole::Muted
    }
}

/// Returns the content role of a tab's label, for a tab that is `disabled`
/// or not, `hovered` or not, and selected or not.
pub fn text_role(disabled: bool, hovered: bool, is_selected: bool) -> (role: ContentRole)
    ensures
        role == tab_text_role(disabled, hovered, is_selected),
{
    if disabled {
        ContentRole::Disabled
    } else if is_selected || hovered {
        ContentRole::Primary
    } else {
        ContentRole::Muted
    }
}

/// A disabled tab is always disabled content; an enabled tab is primary
/// when selected or hovered, and muted otherwise.
pub proof fn law_tab_text_roles(hovered: bool, is_selected: bool)
    ensures
        tab_text_role(true, hovered, is_selected) == ContentRole::Disabled,
        tab_text_role(false, hovered, true) == ContentRole::Primary,
        tab_text_role(false, true, is_selected) == ContentRole::Primary,
        tab_text_role(false, false, false) == ContentRole::Muted,
{
}
} // verus!
