use moonveil::widget::button::{look, outlined_background, pair, Look, Status};
use moonveil::token::BorderWidth;
use moonveil::widget::{checkbox, pick_list, radio, slider, toggler};
use moonveil::token::{
    border, content, neutral_backgrounds, ordered_surfaces, token, BorderRole, Borders, Colors,
    Content, ContentRole, Fill, Interaction, Pair, Semantic, SemanticIntent, SemanticRole,
    Surfaces, TokenRole,
};
use moonveil::widget::button::{has_border, SemanticStyle, Variant as ButtonVariant};
use moonveil::widget::field;
use moonveil::widget::text_editor::{field_variant, Variant as EditorVariant};
use moonveil::widget::{progress_bar, rule, svg, tab_bar, text};
use moonveil::{Metadata, Polarity};

#[test]
fn only_borderless_and_icon_buttons_drop_their_border() {
    assert!(has_border(ButtonVariant::Primary));
    assert!(has_border(ButtonVariant::Secondary));
    assert!(has_border(ButtonVariant::Outline));
    assert!(has_border(ButtonVariant::IconSelected));
    assert!(!has_border(ButtonVariant::Borderless));
    assert!(!has_border(ButtonVariant::Icon));
    for style in [SemanticStyle::Solid, SemanticStyle::Soft, SemanticStyle::Outline] {
        assert!(has_border(ButtonVariant::Semantic { intent: SemanticIntent::Info, style }));
    }
    assert!(!has_border(ButtonVariant::Semantic {
        intent: SemanticIntent::Danger,
        style: SemanticStyle::Borderless
    }));
}

#[test]
fn editor_variants_use_the_field_look_of_the_same_name() {
    assert_eq!(field_variant(EditorVariant::Standard), field::Variant::Standard);
    assert_eq!(field_variant(EditorVariant::Subtle), field::Variant::Subtle);
    assert_eq!(field_variant(EditorVariant::Code), field::Variant::Code);
    assert_eq!(field_variant(EditorVariant::Invalid), field::Variant::Invalid);
}

#[test]
fn tokens_display_as_dotted_paths() {
    assert_eq!(content(ContentRole::Primary).to_string(), "content.primary");
    assert_eq!(content(ContentRole::Inverse).to_string(), "content.inverse");
    assert_eq!(border(BorderRole::Focus).to_string(), "borders.focus");
    assert_eq!(
        token(SemanticIntent::Warning, SemanticRole::Soft).to_string(),
        "warning.soft"
    );
    assert_eq!(
        TokenRole::Semantic(SemanticIntent::Accent, SemanticRole::Foreground).to_string(),
        "accent.foreground"
    );
    assert_eq!(ContentRole::Decorative.name(), "decorative");
    assert_eq!(BorderRole::Selected.name(), "selected");
    assert_eq!(SemanticIntent::Success.name(), "success");
    assert_eq!(SemanticRole::Indicator.name(), "indicator");
}

#[test]
fn metadata_and_polarity_are_plain_values() {
    let metadata = Metadata { name: String::from("Moonveil"), description: None };
    assert_eq!(metadata.clone(), metadata);
    assert_ne!(Polarity::Dark, Polarity::Light);
}


fn surfaces() -> Surfaces<u8> {
    Surfaces { sunken: 1, canvas: 2, inset: 3, surface: 4, raised: 5, overlay: 6, field: 7, scrim: 8 }
}

fn semantic(base: u8) -> Semantic<u8> {
    let pair = Pair { color: base, text: base + 1 };
    let fill = Fill { active: pair, hovered: pair, pressed: pair };
    Semantic { foreground: base, indicator: base + 2, solid: fill, soft: fill, border: base + 3 }
}

#[test]
fn neutral_backgrounds_list_every_surface_but_the_scrim() {
    let names: Vec<&str> = neutral_backgrounds(&surfaces()).iter().map(|(name, _)| *name).collect();
    assert_eq!(
        names,
        vec![
            "surfaces.sunken",
            "surfaces.canvas",
            "surfaces.inset",
            "surfaces.surface",
            "surfaces.raised",
            "surfaces.overlay",
            "surfaces.field"
        ]
    );
    let colors: Vec<u8> = neutral_backgrounds(&surfaces()).iter().map(|(_, color)| *color).collect();
    assert_eq!(colors, vec![1, 2, 3, 4, 5, 6, 7]);
}

#[test]
fn dark_themes_order_field_below_overlay() {
    let dark = ordered_surfaces(&surfaces(), Polarity::Dark);
    assert_eq!(dark[5], ("surfaces.field", 7));
    assert_eq!(dark[6], ("surfaces.overlay", 6));
    let light = ordered_surfaces(&surfaces(), Polarity::Light);
    assert_eq!(light, neutral_backgrounds(&surfaces()));
}

#[test]
fn colors_are_found_by_role_and_intent() {
    let content = Content { primary: 10, secondary: 11, muted: 12, decorative: 13, disabled: 14, inverse: 15 };
    let borders = Borders { subtle: 20, standard: 21, strong: 22, focus: 23, selected: 24 };
    let interaction = Interaction { hover: 30, pressed: 31, selected: 32, selected_hover: 33, dragged: 34, drop_target: 35 };
    let colors = Colors {
        surfaces: surfaces(),
        content,
        borders,
        interaction,
        accent: semantic(40),
        success: semantic(50),
        warning: semantic(60),
        danger: semantic(70),
        info: semantic(80),
    };
    assert_eq!(colors.content.role(ContentRole::Muted), 12);
    assert_eq!(colors.borders.role(BorderRole::Focus), 23);
    assert_eq!(colors.semantic(SemanticIntent::Danger), semantic(70));
    assert_eq!(colors.semantic(SemanticIntent::Info).border, 83);
}

#[test]
fn text_and_icon_variants_pick_content_tokens() {
    assert_eq!(text::color_token(text::Variant::Inherited), None);
    assert_eq!(text::color_token(text::Variant::Muted), Some(content(ContentRole::Muted)));
    assert_eq!(
        text::color_token(text::Variant::Semantic(SemanticIntent::Warning)),
        Some(token(SemanticIntent::Warning, SemanticRole::Foreground))
    );
    assert_eq!(svg::color_token(svg::Variant::Original, true), None);
    assert_eq!(svg::color_token(svg::Variant::Secondary, false), Some(content(ContentRole::Secondary)));
    assert_eq!(svg::color_token(svg::Variant::Secondary, true), Some(content(ContentRole::Primary)));
    assert_eq!(svg::color_token(svg::Variant::Muted, true), Some(content(ContentRole::Secondary)));
}

#[test]
fn rules_and_bars_pick_border_and_indicator_tokens() {
    assert_eq!(rule::color_token(rule::Variant::default()), border(BorderRole::Standard));
    assert_eq!(
        rule::color_token(rule::Variant::Semantic(SemanticIntent::Success)),
        token(SemanticIntent::Success, SemanticRole::Border)
    );
    assert_eq!(
        progress_bar::indicator_token(progress_bar::Variant::Standard),
        token(SemanticIntent::Accent, SemanticRole::Indicator)
    );
    assert_eq!(
        progress_bar::indicator_token(progress_bar::Variant::Semantic(SemanticIntent::Danger)),
        token(SemanticIntent::Danger, SemanticRole::Indicator)
    );
}

#[test]
fn tab_labels_stand_out_when_selected_or_hovered() {
    assert_eq!(tab_bar::text_role(true, true, true), ContentRole::Disabled);
    assert_eq!(tab_bar::text_role(false, false, true), ContentRole::Primary);
    assert_eq!(tab_bar::text_role(false, true, false), ContentRole::Primary);
    assert_eq!(tab_bar::text_role(false, false, false), ContentRole::Muted);
}

#[test]
fn buttons_pick_fills_and_outlines_by_variant() {
    assert_eq!(
        look(ButtonVariant::Primary, Status::Active),
        Look::Filled { intent: SemanticIntent::Accent, soft: false }
    );
    assert_eq!(
        look(ButtonVariant::IconSelected, Status::Hovered),
        Look::Filled { intent: SemanticIntent::Accent, soft: true }
    );
    assert_eq!(
        look(ButtonVariant::Outline, Status::Pressed),
        Look::Outlined {
            text: token(SemanticIntent::Accent, SemanticRole::Foreground),
            border: Some(token(SemanticIntent::Accent, SemanticRole::Border))
        }
    );
    assert_eq!(
        look(ButtonVariant::Icon, Status::Active),
        Look::Outlined { text: content(ContentRole::Secondary), border: None }
    );
    assert_eq!(
        look(
            ButtonVariant::Semantic { intent: SemanticIntent::Danger, style: SemanticStyle::Soft },
            Status::Active
        ),
        Look::Filled { intent: SemanticIntent::Danger, soft: true }
    );
    assert_eq!(look(ButtonVariant::Borderless, Status::Disabled), Look::Disabled { bordered: false });
    assert_eq!(look(ButtonVariant::Primary, Status::Disabled), Look::Disabled { bordered: true });
    let fill = semantic(40).solid;
    assert_eq!(pair(&fill, Status::Disabled), fill.active);
    assert_eq!(pair(&fill, Status::Pressed), fill.pressed);
    let interaction = Interaction { hover: 1, pressed: 2, selected: 3, selected_hover: 4, dragged: 5, drop_target: 6 };
    assert_eq!(outlined_background(&interaction, Status::Active), None);
    assert_eq!(outlined_background(&interaction, Status::Hovered), Some(1));
    assert_eq!(outlined_background(&interaction, Status::Pressed), Some(2));
}

#[test]
fn controls_pick_their_border_tokens() {
    assert_eq!(
        radio::dot_and_border(radio::Variant::Standard, true),
        (token(SemanticIntent::Accent, SemanticRole::Indicator), border(BorderRole::Selected))
    );
    assert_eq!(
        radio::dot_and_border(radio::Variant::Invalid, false).1,
        token(SemanticIntent::Danger, SemanticRole::Border)
    );
    assert_eq!(checkbox::marks(checkbox::Variant::Standard, true), checkbox::Marks::Solid);
    assert_eq!(
        checkbox::marks(checkbox::Variant::Invalid, true),
        checkbox::Marks::Outlined {
            icon: token(SemanticIntent::Danger, SemanticRole::Indicator),
            border: token(SemanticIntent::Danger, SemanticRole::Border)
        }
    );
    assert_eq!(toggler::intent(toggler::Variant::Invalid), SemanticIntent::Danger);
    assert_eq!(toggler::border_token(toggler::Variant::Standard, true), border(BorderRole::Selected));
    assert_eq!(
        toggler::border_token(toggler::Variant::Semantic(SemanticIntent::Info), false),
        border(BorderRole::Strong)
    );
    assert_eq!(
        pick_list::border(pick_list::Variant::Subtle, false),
        (border(BorderRole::Standard), BorderWidth::Hairline)
    );
    assert_eq!(
        pick_list::border(pick_list::Variant::Standard, true),
        (border(BorderRole::Focus), BorderWidth::Focus)
    );
    assert_eq!(
        pick_list::border(pick_list::Variant::Invalid, false),
        (token(SemanticIntent::Danger, SemanticRole::Border), BorderWidth::Control)
    );
    assert_eq!(slider::handle_border(slider::Variant::Standard, false, false), None);
    assert_eq!(
        slider::handle_border(slider::Variant::Standard, true, false),
        Some((token(SemanticIntent::Accent, SemanticRole::Border), BorderWidth::Control))
    );
    assert_eq!(
        slider::handle_border(slider::Variant::Semantic(SemanticIntent::Success), true, true),
        Some((border(BorderRole::Focus), BorderWidth::Focus))
    );
}
