//! Resolved color tokens: their roles, as named in resolution errors, and
//! the sets of colors that a theme resolves, over any color type `C`.
use vstd::prelude::*;
use crate::theme::Polarity;

pub use SemanticIntent as Intent;

verus! {

/// A content token identified in a resolution error.
#[derive(Debug, Clone, Copy, PartialEq, Eq, Structural)]
#[non_exhaustive]
pub enum ContentRole {
    Primary,
    Secondary,
    Muted,
    Decorative,
    Disabled,
    Inverse,
}

/// A border token identified in a resolution error.
#[derive(Debug, Clone, Copy, PartialEq, Eq, Structural)]
#[non_exhaustive]
pub enum BorderRole {
    Subtle,
    Standard,
    Strong,
    Focus,
    Selected,
}

/// The semantic meaning carried by a semantic color family.
#[derive(Debug, Clone, Copy, PartialEq, Eq, Structural)]
#[non_exhaustive]
pub enum SemanticIntent {
    Accent,
    Success,
    Warning,
    Danger,
    Info,
}

/// A token within a semantic color family.
#[derive(Debug, Clone, Copy, PartialEq, Eq, Structural)]
#[non_exhaustive]
pub enum SemanticRole {
    Foreground,
    Indicator,
    Solid,
    Soft,
    Border,
}

/// A resolved token identified in a resolution error.
#[derive(Debug, Clone, Copy, PartialEq, Eq, Structural)]
#[non_exhaustive]
pub enum TokenRole {
    Content(ContentRole),
    Border(BorderRole),
    Semantic(SemanticIntent, SemanticRole),
}

/// The name under which a content role is displayed.
pub open spec fn content_role_name(role: ContentRole) -> Seq<char> {
    match role {
        ContentRole::Primary => "primary"@,
        ContentRole::Secondary => "secondary"@,
        ContentRole::Muted => "muted"@,
        ContentRole::Decorative => "decorative"@,
        ContentRole::Disabled => "disabled"@,
        ContentRole::Inverse => "inverse"@,
    }
}

/// The name under which a border role is displayed.
pub open spec fn border_role_name(role: BorderRole) -> Seq<char> {
    match role {
        BorderRole::Subtle => "subtle"@,
        BorderRole::Standard => "standard"@,
        BorderRole::Strong => "strong"@,
        BorderRole::Focus => "focus"@,
        BorderRole::Selected => "selected"@,
    }
}

/// The name under which a semantic intent is displayed.
pub open spec fn intent_name(intent: SemanticIntent) -> Seq<char> {
    match intent {
        SemanticIntent::Accent => "accent"@,
        SemanticIntent::Success => "success"@,
        SemanticIntent::Warning => "warning"@,
        SemanticIntent::Danger => "danger"@,
        SemanticIntent::Info => "info"@,
    }
}

/// The name under which a semantic role is displayed.
pub open spec fn semantic_role_name(role: SemanticRole) -> Seq<char> {
    match role {
        SemanticRole::Foreground => "foreground"@,
        SemanticRole::Indicator => "indicator"@,
        SemanticRole::Solid => "solid"@,
        SemanticRole::Soft => "soft"@,
        SemanticRole::Border => "border"@,
    }
}

/// The dotted path under which a token is displayed, such as `content.primary`,
/// `borders.focus` or `danger.soft`.
pub open spec fn token_role_name(token: TokenRole) -> Seq<char> {
    match token {
        TokenRole::Content(role) => "content."@ + content_role_name(role),
        TokenRole::Border(role) => "borders."@ + border_role_name(role),
        TokenRole::Semantic(intent, role) => intent_name(intent) + "."@ + semantic_role_name(role),
    }
}

impl ContentRole {
    /// Returns the displayed name of this role.
    pub fn name(&self) -> (res: &'static str)
        ensures
            res@ == content_role_name(*self),
    {
        match self {
            ContentRole::Primary => "primary",
            ContentRole::Secondary => "secondary",
            ContentRole::Muted => "muted",
            ContentRole::Decorative => "decorative",
            ContentRole::Disabled => "disabled",
            ContentRole::Inverse => "inverse",
        }
    }
}

impl BorderRole {
    /// Returns the displayed name of this role.
    pub fn name(&self) -> (res: &'static str)
        ensures
            res@ == border_role_name(*self),
    {
        match self {
            BorderRole::Subtle => "subtle",
            BorderRole::Standard => "standard",
            BorderRole::Strong => "strong",
            BorderRole::Focus => "focus",
            BorderRole::Selected => "selected",
        }
    }
}

impl SemanticIntent {
    /// Returns the displayed name of this intent.
    pub fn name(&self) -> (res: &'static str)
        ensures
            res@ == intent_name(*self),
    {
        match self {
            SemanticIntent::Accent => "accent",
            SemanticIntent::Success => "success",
            SemanticIntent::Warning => "warning",
            SemanticIntent::Danger => "danger",
            SemanticIntent::Info => "info",
        }
    }
}

impl SemanticRole {
    /// Returns the displayed name of this role.
    pub fn name(&self) -> (res: &'static str)
        ensures
            res@ == semantic_role_name(*self),
    {
        match self {
            SemanticRole::Foreground => "foreground",
            SemanticRole::Indicator => "indicator",
            SemanticRole::Solid => "solid",
            SemanticRole::Soft => "soft",
            SemanticRole::Border => "border",
        }
    }
}

impl TokenRole {
    /// Returns the dotted path under which this token is displayed.
    pub fn to_string(&self) -> (res: String)
        ensures
            res@ == token_role_name(*self),
    {
        match self {
            TokenRole::Content(role) => {
                let mut res = String::from_str("content.");
                res.append(role.name());
                res
            },
            TokenRole::Border(role) => {
                let mut res = String::from_str("borders.");
                res.append(role.name());
                res
            },
            TokenRole::Semantic(intent, role) => {
                let mut res = String::from_str(intent.name());
                res.append(".");
                res.append(role.name());
                res
            },
        }
    }
}

/// The token of a content role.
pub fn content(role: ContentRole) -> (token: TokenRole)
    ensures
        token == TokenRole::Content(role),
{
    TokenRole::Content(role)
}

/// The token of a border role.
pub fn border(role: BorderRole) -> (token: TokenRole)
    ensures
        token == TokenRole::Border(role),
{
    TokenRole::Border(role)
}

/// The token of a role within a semantic family.
pub fn token(intent: SemanticIntent, role: SemanticRole) -> (token: TokenRole)
    ensures
        token == TokenRole::Semantic(intent, role),
{
    TokenRole::Semantic(intent, role)
}


/// Neutral planes used to establish visual depth and grouping.
#[derive(Debug, Clone, Copy, PartialEq)]
pub struct Surfaces<C> {
    /// Recessed content such as code wells and terminal output.
    pub sunken: C,
    /// Receding application chrome such as sidebars.
    pub canvas: C,
    /// Local recesses such as tracks and segmented-control backgrounds.
    pub inset: C,
    /// The primary content plane.
    pub surface: C,
    /// Inline panels and grouped content; does not imply a shadow.
    pub raised: C,
    /// Menus, popovers, and other content placed above another plane.
    pub overlay: C,
    /// Editable content and dense data planes.
    pub field: C,
    /// A translucent backdrop placed between modal and underlying content.
    pub scrim: C,
}

/// Foregrounds grouped by content emphasis.
#[derive(Debug, Clone, Copy, PartialEq)]
pub struct Content<C> {
    /// Headings, values, and primary document content.
    pub primary: C,
    /// Body copy, labels, active controls, and icons.
    pub secondary: C,
    /// Readable metadata, hints, and placeholders.
    pub muted: C,
    /// Nonessential icons and large incidental text.
    pub decorative: C,
    /// Unavailable controls and values only.
    pub disabled: C,
    /// Content shown on strongly inverted neutral surfaces.
    pub inverse: C,
}

/// Boundaries grouped by visual and interaction intent.
#[derive(Debug, Clone, Copy, PartialEq)]
pub struct Borders<C> {
    /// Decorative separation where shape is already apparent.
    pub subtle: C,
    /// Ordinary boundaries for grouped regions and panels.
    pub standard: C,
    /// Clear edges for fields and controls.
    pub strong: C,
    /// Keyboard focus indication where focus state is available.
    pub focus: C,
    /// Selected and checked outlines.
    pub selected: C,
}

/// Temporary overlays for interaction states.
#[derive(Debug, Clone, Copy, PartialEq)]
pub struct Interaction<C> {
    /// Overlay applied while a pointer hovers over an interactive region.
    pub hover: C,
    /// Overlay applied while an interactive region is pressed.
    pub pressed: C,
    /// Persistent overlay for selected content.
    pub selected: C,
    /// Hover overlay for selected content.
    pub selected_hover: C,
    /// Overlay for content currently being dragged.
    pub dragged: C,
    /// Overlay identifying a valid drop destination.
    pub drop_target: C,
}

/// A fill and the text or icon color guaranteed against it.
#[derive(Debug, Clone, Copy, PartialEq)]
pub struct Pair<C> {
    /// The background or fill color.
    pub color: C,
    /// Text and icon color guaranteed against [`Self::color`].
    pub text: C,
}

/// Resolved fill pairs for each interactive state.
#[derive(Debug, Clone, Copy, PartialEq)]
pub struct Fill<C> {
    /// The default fill and foreground pair.
    pub active: Pair<C>,
    /// The fill and foreground pair while hovered.
    pub hovered: Pair<C>,
    /// The fill and foreground pair while pressed.
    pub pressed: Pair<C>,
}

/// Resolved roles for one semantic intent.
#[derive(Debug, Clone, Copy, PartialEq)]
pub struct Semantic<C> {
    /// Semantic text and icons shown directly on neutral surfaces.
    pub foreground: C,
    /// Essential non-text marks such as range fills and status graphics.
    pub indicator: C,
    /// High-emphasis actions and compact status fills.
    pub solid: Fill<C>,
    /// Alerts, badges, selected rows, and low-emphasis semantic actions.
    pub soft: Fill<C>,
    /// A visible edge for semantic regions placed on neutral surfaces.
    pub border: C,
}

/// All resolved color tokens for a theme.
#[derive(Debug, Clone, Copy, PartialEq)]
pub struct Colors<C> {
    /// Neutral planes used throughout the interface.
    pub surfaces: Surfaces<C>,
    /// Foregrounds grouped by content emphasis.
    pub content: Content<C>,
    /// Decorative, control, focus, and selection boundaries.
    pub borders: Borders<C>,
    /// Temporary and persistent interaction overlays.
    pub interaction: Interaction<C>,
    /// Accent and primary-action roles.
    pub accent: Semantic<C>,
    /// Successful and positive-state roles.
    pub success: Semantic<C>,
    /// Caution and warning-state roles.
    pub warning: Semantic<C>,
    /// Destructive, invalid, and error-state roles.
    pub danger: Semantic<C>,
    /// Informational and neutral-notice roles.
    pub info: Semantic<C>,
}

/// The foreground of a content role.
pub open spec fn content_color<C>(content: Content<C>, role: ContentRole) -> C {
    match role {
        ContentRole::Primary => content.primary,
        ContentRole::Secondary => content.secondary,
        ContentRole::Muted => content.muted,
        ContentRole::Decorative => content.decorative,
        ContentRole::Disabled => content.disabled,
        ContentRole::Inverse => content.inverse,
    }
}

/// The boundary of a border role.
pub open spec fn border_color<C>(borders: Borders<C>, role: BorderRole) -> C {
    match role {
        BorderRole::Subtle => borders.subtle,
        BorderRole::Standard => borders.standard,
        BorderRole::Strong => borders.strong,
        BorderRole::Focus => borders.focus,
        BorderRole::Selected => borders.selected,
    }
}

/// The roles of a semantic intent.
pub open spec fn semantic_colors<C>(colors: Colors<C>, intent: SemanticIntent) -> Semantic<C> {
    match intent {
        SemanticIntent::Accent => colors.accent,
        SemanticIntent::Success => colors.success,
        SemanticIntent::Warning => colors.warning,
        SemanticIntent::Danger => colors.danger,
        SemanticIntent::Info => colors.info,
    }
}

impl<C: Copy> Content<C> {
    /// Returns the foreground of a content role.
    pub fn role(&self, role: ContentRole) -> (color: C)
        ensures
            color == content_color(*self, role),
    {
        match role {
            ContentRole::Primary => self.primary,
            ContentRole::Secondary => self.secondary,
            ContentRole::Muted => self.muted,
            ContentRole::Decorative => self.decorative,
            ContentRole::Disabled => self.disabled,
            ContentRole::Inverse => self.inverse,
        }
    }
}

impl<C: Copy> Borders<C> {
    /// Returns the boundary of a border role.
    pub fn role(&self, role: BorderRole) -> (color: C)
        ensures
            color == border_color(*self, role),
    {
        match role {
            BorderRole::Subtle => self.subtle,
            BorderRole::Standard => self.standard,
            BorderRole::Strong => self.strong,
            BorderRole::Focus => self.focus,
            BorderRole::Selected => self.selected,
        }
    }
}

impl<C: Copy> Colors<C> {
    /// Returns the roles of a semantic intent.
    pub fn semantic(&self, intent: SemanticIntent) -> (semantic: Semantic<C>)
        ensures
            semantic == semantic_colors(*self, intent),
    {
        match intent {
            SemanticIntent::Accent => self.accent,
            SemanticIntent::Success => self.success,
            SemanticIntent::Warning => self.warning,
            SemanticIntent::Danger => self.danger,
            SemanticIntent::Info => self.info,
        }
    }
}

/// The neutral surfaces in the order in which a light theme lightens them,
/// each with the name under which it is reported; a dark theme swaps the
/// last two.
pub open spec fn surface_order<C>(surfaces: Surfaces<C>, polarity: Polarity) -> Seq<(Seq<char>, C)> {
    let light = seq![
        ("surfaces.sunken"@, surfaces.sunken),
        ("surfaces.canvas"@, surfaces.canvas),
        ("surfaces.inset"@, surfaces.inset),
        ("surfaces.surface"@, surfaces.surface),
        ("surfaces.raised"@, surfaces.raised),
        ("surfaces.overlay"@, surfaces.overlay),
        ("surfaces.field"@, surfaces.field),
    ];
    match polarity {
        Polarity::Light => light,
        Polarity::Dark => light.update(5, ("surfaces.field"@, surfaces.field)).update(
            6,
            ("surfaces.overlay"@, surfaces.overlay),
        ),
    }
}

/// The names and colors of a list of named colors.
pub open spec fn named_views<C>(named: Seq<(&'static str, C)>) -> Seq<(Seq<char>, C)> {
    named.map_values(|entry: (&'static str, C)| (entry.0@, entry.1))
}

/// Returns the neutral surfaces, each with the name under which it is
/// reported: every surface but the scrim, from sunken to field.
pub fn neutral_backgrounds<C: Copy>(surfaces: &Surfaces<C>) -> (backgrounds: [(&'static str, C); 7])
    ensures
        named_views(backgrounds@) == surface_order(*surfaces, Polarity::Light),
{
    let backgrounds = [
        ("surfaces.sunken", surfaces.sunken),
        ("surfaces.canvas", surfaces.canvas),
        ("surfaces.inset", surfaces.inset),
        ("surfaces.surface", surfaces.surface),
        ("surfaces.raised", surfaces.raised),
        ("surfaces.overlay", surfaces.overlay),
        ("surfaces.field", surfaces.field),
    ];
    assert(named_views(backgrounds@) =~= surface_order(*surfaces, Polarity::Light));
    backgrounds
}

/// Returns the neutral surfaces in the order in which they must lighten,
/// from sunken up: a light theme ends with overlay and then field, a dark
/// theme with field and then overlay.
pub fn ordered_surfaces<C: Copy>(surfaces: &Surfaces<C>, polarity: Polarity) -> (ordered: [(
    &'static str,
    C,
); 7])
    ensures
        named_views(ordered@) == surface_order(*surfaces, polarity),
{
    match polarity {
        Polarity::Dark => {
            let ordered = [
                ("surfaces.sunken", surfaces.sunken),
                ("surfaces.canvas", surfaces.canvas),
                ("surfaces.inset", surfaces.inset),
                ("surfaces.surface", surfaces.surface),
                ("surfaces.raised", surfaces.raised),
                ("surfaces.field", surfaces.field),
                ("surfaces.overlay", surfaces.overlay),
            ];
            assert(named_views(ordered@) =~= surface_order(*surfaces, polarity));
            ordered
        },
        Polarity::Light => neutral_backgrounds(surfaces),
    }
}


/// A border width of a theme, by role.
#[derive(Debug, Clone, Copy, PartialEq, Eq, Structural)]
pub enum BorderWidth {
    /// Decorative separation.
    Hairline,
    /// The edge of a control.
    Control,
    /// The edge of a focused or opened control.
    Focus,
}


/// Every role is displayed by its own lower-case name, and a token by its
/// dotted path: `content.` or `borders.` before a content or border role,
/// and the intent's name, a dot and the role's name for a semantic token.
pub proof fn law_token_names(
    content: ContentRole,
    border: BorderRole,
    intent: SemanticIntent,
    role: SemanticRole,
)
    ensures
        content_role_name(ContentRole::Primary) == "primary"@,
        content_role_name(ContentRole::Secondary) == "secondary"@,
        content_role_name(ContentRole::Muted) == "muted"@,
        content_role_name(ContentRole::Decorative) == "decorative"@,
        content_role_name(ContentRole::Disabled) == "disabled"@,
        content_role_name(ContentRole::Inverse) == "inverse"@,
        border_role_name(BorderRole::Subtle) == "subtle"@,
        border_role_name(BorderRole::Standard) == "standard"@,
        border_role_name(BorderRole::Strong) == "strong"@,
        border_role_name(BorderRole::Focus) == "focus"@,
        border_role_name(BorderRole::Selected) == "selected"@,
        intent_name(SemanticIntent::Accent) == "accent"@,
        intent_name(SemanticIntent::Success) == "success"@,
        intent_name(SemanticIntent::Warning) == "warning"@,
        intent_name(SemanticIntent::Danger) == "danger"@,
        intent_name(SemanticIntent::Info) == "info"@,
        semantic_role_name(SemanticRole::Foreground) == "foreground"@,
        semantic_role_name(SemanticRole::Indicator) == "indicator"@,
        semantic_role_name(SemanticRole::Solid) == "solid"@,
        semantic_role_name(SemanticRole::Soft) == "soft"@,
        semantic_role_name(SemanticRole::Border) == "border"@,
        token_role_name(TokenRole::Content(content)) == "content."@ + content_role_name(content),
        token_role_name(TokenRole::Border(border)) == "borders."@ + border_role_name(border),
        token_role_name(TokenRole::Semantic(intent, role)) == intent_name(intent) + "."@
            + semantic_role_name(role),
{
}
} // verus!
