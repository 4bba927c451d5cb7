//! Buttons: their built-in style variants and the tokens they draw with.
use vstd::prelude::*;
use crate::token::{ContentRole, Fill, Intent, Interaction, Pair, SemanticRole, TokenRole};

verus! {

/// The visual treatment of a semantic button.
#[derive(Debug, Clone, Copy, PartialEq, Eq, Structural)]
#[non_exhaustive]
pub enum SemanticStyle {
    /// A high-emphasis semantic fill.
    Solid,
    /// A low-emphasis semantic fill.
    Soft,
    /// Semantic content and border on the surrounding surface.
    Outline,
    /// Semantic content without a persistent fill or border.
    Borderless,
}

/// A built-in button style.
#[derive(Debug, Default, Clone, Copy, PartialEq, Eq, Structural)]
#[non_exhaustive]
pub enum Variant {
    /// The primary action, mapped to accent solid tokens.
    #[default]
    Primary,
    /// A lower-emphasis action, mapped to accent soft tokens.
    Secondary,
    /// An accent action with a persistent border and no resting fill.
    Outline,
    /// An accent action without a persistent border or resting fill.
    Borderless,
    /// An action carrying explicit semantic intent and treatment.
    Semantic { intent: Intent, style: SemanticStyle },
    /// A neutral icon action.
    Icon,
    /// A selected icon action, mapped to accent soft tokens.
    IconSelected,
}

/// Whether a button variant draws a border: every variant but the
/// borderless and plain icon treatments.
pub open spec fn variant_has_border(variant: Variant) -> bool {
    match variant {
        Variant::Borderless | Variant::Icon => false,
        Variant::Semantic { style, .. } => style != SemanticStyle::Borderless,
        _ => true,
    }
}

/// Returns whether a button variant draws a border.
pub fn has_border(variant: Variant) -> (border: bool)
    ensures
        border == variant_has_border(variant),
{
    match variant {
        Variant::Primary | Variant::Secondary | Variant::Outline | Variant::IconSelected => true,
        Variant::Semantic { style, .. } => match style {
            SemanticStyle::Solid | SemanticStyle::Soft | SemanticStyle::Outline => true,
            SemanticStyle::Borderless => false,
        },
        Variant::Borderless | Variant::Icon => false,
    }
}


/// The interaction status of a button.
#[derive(Debug, Clone, Copy, PartialEq, Eq, Structural)]
pub enum Status {
    Active,
    Hovered,
    Pressed,
    Disabled,
}

/// What a button draws with.
#[derive(Debug, Clone, Copy, PartialEq, Eq, Structural)]
pub enum Look {
    /// Disabled content on no fill, with a hairline subtle border when
    /// `bordered`.
    Disabled { bordered: bool },
    /// The solid fill of an intent, or its soft fill when `soft`, with the
    /// intent's border.
    Filled { intent: Intent, soft: bool },
    /// No resting fill: content in the `text` token, and a border in the
    /// `border` token when there is one.
    Outlined { text: TokenRole, border: Option<TokenRole> },
}

/// The treatment of a semantic style of an intent: solid and soft fill,
/// outline and borderless draw the intent's foreground with or without its
/// border.
pub open spec fn semantic_look(intent: Intent, style: SemanticStyle) -> Look {
    match style {
        SemanticStyle::Solid => Look::Filled { intent, soft: false },
        SemanticStyle::Soft => Look::Filled { intent, soft: true },
        SemanticStyle::Outline => Look::Outlined {
            text: TokenRole::Semantic(intent, SemanticRole::Foreground),
            border: Some(TokenRole::Semantic(intent, SemanticRole::Border)),
        },
        SemanticStyle::Borderless => Look::Outlined {
            text: TokenRole::Semantic(intent, SemanticRole::Foreground),
            border: None,
        },
    }
}

/// What a button variant draws with in a status: a disabled button keeps
/// only its border; the primary action is accent solid, secondary and
/// selected icon actions accent soft; outline and borderless actions draw
/// the accent foreground; a plain icon draws secondary content.
pub open spec fn button_look(variant: Variant, status: Status) -> Look {
    if status == Status::Disabled {
        Look::Disabled { bordered: variant_has_border(variant) }
    } else {
        match variant {
            Variant::Primary => Look::Filled { intent: Intent::Accent, soft: false },
            Variant::Secondary | Variant::IconSelected => Look::Filled {
                intent: Intent::Accent,
                soft: true,
            },
            Variant::Outline => semantic_look(Intent::Accent, SemanticStyle::Outline),
            Variant::Borderless => semantic_look(Intent::Accent, SemanticStyle::Borderless),
            Variant::Semantic { intent, style } => semantic_look(intent, style),
            Variant::Icon => Look::Outlined {
                text: TokenRole::Content(ContentRole::Secondary),
                border: None,
            },
        }
    }
}

fn semantic_treatment(intent: Intent, style: SemanticStyle) -> (look: Look)
    ensures
        look == semantic_look(intent, style),
{
    match style {
        SemanticStyle::Solid => Look::Filled { intent, soft: false },
        SemanticStyle::Soft => Look::Filled { intent, soft: true },
        SemanticStyle::Outline => Look::Outlined {
            text: TokenRole::Semantic(intent, SemanticRole::Foreground),
            border: Some(TokenRole::Semantic(intent, SemanticRole::Border)),
        },
        SemanticStyle::Borderless => Look::Outlined {
            text: TokenRole::Semantic(intent, SemanticRole::Foreground),
            border: None,
        },
    }
}

/// Returns what a button variant draws with in a status.
pub fn look(variant: Variant, status: Status) -> (look: Look)
    ensures
        look == button_look(variant, status),
{
    if status == Status::Disabled {
        return Look::Disabled { bordered: has_border(variant) };
    }
    match variant {
        Variant::Primary => Look::Filled { intent: Intent::Accent, soft: false },
        Variant::Secondary | Variant::IconSelected => Look::Filled { intent: Intent::Accent, soft: true },
        Variant::Outline => semantic_treatment(Intent::Accent, SemanticStyle::Outline),
        Variant::Borderless => semantic_treatment(Intent::Accent, SemanticStyle::Borderless),
        Variant::Semantic { intent, style } => semantic_treatment(intent, style),
        Variant::Icon => Look::Outlined { text: TokenRole::Content(ContentRole::Secondary), border: None },
    }
}

/// The pair of a fill that a status shows: the resting pair while active
/// or disabled, and the hovered or pressed pair otherwise.
pub open spec fn status_pair<C>(fill: Fill<C>, status: Status) -> Pair<C> {
    match status {
        Status::Active | Status::Disabled => fill.active,
        Status::Hovered => fill.hovered,
        Status::Pressed => fill.pressed,
    }
}

/// Returns the pair of a fill that a status shows.
pub fn pair<C: Copy>(fill: &Fill<C>, status: Status) -> (pair: Pair<C>)
    ensures
        pair == status_pair(*fill, status),
{
    match status {
        Status::Active | Status::Disabled => fill.active,
        Status::Hovered => fill.hovered,
        Status::Pressed => fill.pressed,
    }
}

/// Returns the background of a button without a resting fill: none at
/// rest, and the hover or press overlay while hovered or pressed.
pub fn outlined_background<C: Copy>(interaction: &Interaction<C>, status: Status) -> (background:
    Option<C>)
    ensures
        background == match status {
            Status::Active | Status::Disabled => None,
            Status::Hovered => Some(interaction.hover),
            Status::Pressed => Some(interaction.pressed),
        },
{
    match status {
        Status::Active | Status::Disabled => None,
        Status::Hovered => Some(interaction.hover),
        Status::Pressed => Some(interaction.pressed),
    }
}


/// Only borderless buttons (accent or semantic) and plain icon buttons
/// draw no border. An enabled primary button is accent solid, secondary and
/// selected icon buttons accent soft, outline and borderless buttons draw
/// the accent foreground with and without the accent border, plain icons
/// secondary content, and semantic buttons their intent's roles in their
/// style; a disabled button keeps only the border its variant draws. A
/// filled button shows its fill's resting pair while active or disabled,
/// and its hovered or pressed pair otherwise.
pub proof fn law_button_looks<C>(intent: Intent, style: SemanticStyle, status: Status, fill: Fill<C>)
    ensures
        !variant_has_border(Variant::Borderless),
        !variant_has_border(Variant::Icon),
        !variant_has_border(Variant::Semantic { intent, style: SemanticStyle::Borderless }),
        variant_has_border(Variant::Primary),
        variant_has_border(Variant::Secondary),
        variant_has_border(Variant::Outline),
        variant_has_border(Variant::IconSelected),
        style != SemanticStyle::Borderless ==> variant_has_border(Variant::Semantic { intent, style }),
        status != Status::Disabled ==> {
            &&& button_look(Variant::Primary, status) == (Look::Filled {
                intent: Intent::Accent,
                soft: false,
            })
            &&& button_look(Variant::Secondary, status) == (Look::Filled {
                intent: Intent::Accent,
                soft: true,
            })
            &&& button_look(Variant::IconSelected, status) == (Look::Filled {
                intent: Intent::Accent,
                soft: true,
            })
            &&& button_look(Variant::Outline, status) == (Look::Outlined {
                text: TokenRole::Semantic(Intent::Accent, SemanticRole::Foreground),
                border: Some(TokenRole::Semantic(Intent::Accent, SemanticRole::Border)),
            })
            &&& button_look(Variant::Borderless, status) == (Look::Outlined {
                text: TokenRole::Semantic(Intent::Accent, SemanticRole::Foreground),
                border: None,
            })
            &&& button_look(Variant::Icon, status) == (Look::Outlined {
                text: TokenRole::Content(ContentRole::Secondary),
                border: None,
            })
            &&& button_look(Variant::Semantic { intent, style: SemanticStyle::Solid }, status)
                == (Look::Filled { intent, soft: false })
            &&& button_look(Variant::Semantic { intent, style: SemanticStyle::Soft }, status)
                == (Look::Filled { intent, soft: true })
            &&& button_look(Variant::Semantic { intent, style: SemanticStyle::Outline }, status)
                == (Look::Outlined {
                text: TokenRole::Semantic(intent, SemanticRole::Foreground),
                border: Some(TokenRole::Semantic(intent, SemanticRole::Border)),
            })
            &&& button_look(Variant::Semantic { intent, style: SemanticStyle::Borderless }, status)
                == (Look::Outlined {
                text: TokenRole::Semantic(intent, SemanticRole::Foreground),
                border: None,
            })
        },
        button_look(Variant::Primary, Status::Disabled) == (Look::Disabled { bordered: true }),
        button_look(Variant::Icon, Status::Disabled) == (Look::Disabled { bordered: false }),
        status_pair(fill, Status::Active) == fill.active,
        status_pair(fill, Status::Disabled) == fill.active,
        status_pair(fill, Status::Hovered) == fill.hovered,
        status_pair(fill, Status::Pressed) == fill.pressed,
{
}
} // verus!
