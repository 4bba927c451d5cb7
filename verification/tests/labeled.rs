use moonveil::token::Intent;
use moonveil::widget::labeled::{labeled, IntoMessage, Labeled, Supporting};
use moonveil::widget::text::Variant;

fn field() -> Labeled {
    labeled("Name")
}

#[test]
fn reserves_message_space_by_default() {
    assert!(field().reserve_message);
    assert!(!field().reserve_message(false).reserve_message);
}

#[test]
fn message_takes_precedence_over_hint_in_any_order() {
    let before = field().error("Required").hint("Shown publicly");
    let after = field().hint("Shown publicly").error("Required");

    for labeled in [before, after] {
        assert!(labeled.message.is_some());
        assert!(labeled.hint.is_some());
        assert!(matches!(
            labeled.supporting(),
            Supporting::Text { content, variant: Variant::Semantic(Intent::Danger) } if content == "Required"
        ));
    }
}

#[test]
fn none_clears_message() {
    let error: Option<String> = None;
    let labeled = field().error("Required").error(error);

    assert!(labeled.message.is_none());
}

#[test]
fn accepts_borrowed_and_optional_references() {
    let owned = String::from("Invalid URL");
    let error: Option<&String> = Some(&owned);

    assert!(field().error(error).message.is_some());
    assert!(field().error(&owned).message.is_some());
}

#[test]
fn accepts_owned_and_conditional_messages() {
    let labeled = field()
        .message(Intent::Warning, String::from("Overwrites the file"))
        .hint(true.then_some("Optional"));

    assert!(labeled.message.is_some());
    assert!(labeled.hint.is_some());
}

#[test]
fn hints_show_muted_when_there_is_no_message() {
    let labeled = field().hint("Shown publicly");
    assert!(matches!(
        labeled.supporting(),
        Supporting::Text { content, variant: Variant::Muted } if content == "Shown publicly"
    ));
}

#[test]
fn without_text_a_line_is_reserved_unless_turned_off() {
    assert!(matches!(field().supporting(), Supporting::Reserved));
    assert!(matches!(
        field().reserve_message(false).supporting(),
        Supporting::Nothing
    ));
}

#[test]
fn required_controls_get_a_danger_marker() {
    assert_eq!(field().marker(), None);
    assert_eq!(
        field().required(true).marker(),
        Some(Variant::Semantic(Intent::Danger))
    );
    assert_eq!(field().label, "Name");
}

#[test]
fn messages_convert_from_text_and_options() {
    assert_eq!("a".into_message(), Some(String::from("a")));
    assert_eq!(String::from("b").into_message(), Some(String::from("b")));
    assert_eq!(None::<&str>.into_message(), None);
    assert_eq!(Some(Some("c")).into_message(), Some(String::from("c")));
}
