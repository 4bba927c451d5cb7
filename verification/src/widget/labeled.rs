//! A caption placed above a control, with optional supporting text below it.
//!
//! This module holds the caption's text and the rule that picks what is
//! shown below the control; the widget that lays them out around the
//! control is left to the application.
use vstd::prelude::*;
use crate::token::Intent;
use crate::widget::text;

verus! {

/// Supporting text that may be absent, such as a conditional validation message.
pub trait IntoMessage {
    /// The text to display, if any.
    spec fn message_text(&self) -> Option<Seq<char>>;

    /// Converts into the text to display, if any.
    fn into_message(self) -> (message: Option<String>)
        ensures
            match message {
                Some(s) => self.message_text() == Some(s@),
                None => self.message_text() is None,
            },
    ;
}

impl<'a> IntoMessage for &'a str {
    open spec fn message_text(&self) -> Option<Seq<char>> {
        Some((*self)@)
    }

    fn into_message(self) -> (message: Option<String>) {
        Some(self.to_owned())
    }
}

impl<'a> IntoMessage for &'a String {
    open spec fn message_text(&self) -> Option<Seq<char>> {
        Some((*self)@)
    }

    fn into_message(self) -> (message: Option<String>) {
        Some(self.clone())
    }
}

impl IntoMessage for String {
    open spec fn message_text(&self) -> Option<Seq<char>> {
        Some(self@)
    }

    fn into_message(self) -> (message: Option<String>) {
        Some(self)
    }
}

impl<T: IntoMessage> IntoMessage for Option<T> {
    open spec fn message_text(&self) -> Option<Seq<char>> {
        match self {
            Some(inner) => inner.message_text(),
            None => None,
        }
    }

    fn into_message(self) -> (message: Option<String>) {
        match self {
            Some(inner) => inner.into_message(),
            None => None,
        }
    }
}

/// The captions of a control: the label above it, whether it is marked as
/// required, and the supporting text below it.
///
/// One line below the control is kept for supporting text by default, so
/// that a message can appear without shifting the surrounding layout;
/// [`Labeled::reserve_message`] turns this off.
#[derive(Debug, Clone)]
pub struct Labeled {
    pub label: String,
    pub required: bool,
    pub hint: Option<String>,
    pub message: Option<(Intent, String)>,
    pub reserve_message: bool,
}

/// What is shown below the control.
#[derive(Debug, Clone)]
pub enum Supporting {
    /// Supporting text in the given style.
    Text { content: String, variant: text::Variant },
    /// An empty line, kept so that a later message does not shift the layout.
    Reserved,
    /// Nothing.
    Nothing,
}

/// The captions of a control labelled `label`, with no supporting text and
/// a line kept for it.
pub fn labeled(label: &str) -> (labeled: Labeled)
    ensures
        labeled.label@ == label@,
        !labeled.required,
        labeled.hint is None,
        labeled.message is None,
        labeled.reserve_message,
{
    Labeled {
        label: String::from_str(label),
        required: false,
        hint: None,
        message: None,
        reserve_message: true,
    }
}

/// The text shown below the control: the message, in its intent's style,
/// wins over the hint, shown muted.
pub open spec fn supporting_text(labeled: Labeled) -> Option<(Seq<char>, text::Variant)> {
    match labeled.message {
        Some((intent, message)) => Some((message@, text::Variant::Semantic(intent))),
        None => match labeled.hint {
            Some(hint) => Some((hint@, text::Variant::Muted)),
            None => None,
        },
    }
}

impl Labeled {
    /// Sets whether the label is marked as required.
    pub fn required(self, required: bool) -> (labeled: Self)
        ensures
            labeled == (Labeled { required, ..self }),
    {
        Labeled { required, ..self }
    }

    /// Adds guidance below the control, shown whenever there is no message;
    /// an absent hint clears it.
    pub fn hint<M: IntoMessage>(self, hint: M) -> (labeled: Self)
        ensures
            labeled.label == self.label,
            labeled.required == self.required,
            labeled.message == self.message,
            labeled.reserve_message == self.reserve_message,
            match labeled.hint {
                Some(h) => hint.message_text() == Some(h@),
                None => hint.message_text() is None,
            },
    {
        Labeled { hint: hint.into_message(), ..self }
    }

    /// Shows a message carrying `intent` below the control in place of the
    /// hint; an absent message clears it, which suits conditional validation.
    pub fn message<M: IntoMessage>(self, intent: Intent, message: M) -> (labeled: Self)
        ensures
            labeled.label == self.label,
            labeled.required == self.required,
            labeled.hint == self.hint,
            labeled.reserve_message == self.reserve_message,
            match labeled.message {
                Some((i, m)) => i == intent && message.message_text() == Some(m@),
                None => message.message_text() is None,
            },
    {
        let text = message.into_message();
        let message = match text {
            Some(text) => Some((intent, text)),
            None => None,
        };
        Labeled { message, ..self }
    }

    /// Shows a danger message below the control in place of the hint.
    pub fn error<M: IntoMessage>(self, error: M) -> (labeled: Self)
        ensures
            labeled.label == self.label,
            labeled.required == self.required,
            labeled.hint == self.hint,
            labeled.reserve_message == self.reserve_message,
            match labeled.message {
                Some((i, m)) => i == Intent::Danger && error.message_text() == Some(m@),
                None => error.message_text() is None,
            },
    {
        self.message(Intent::Danger, error)
    }

    /// Sets whether an empty line is kept below the control when there is
    /// no hint or message.
    pub fn reserve_message(self, reserve: bool) -> (labeled: Self)
        ensures
            labeled == (Labeled { reserve_message: reserve, ..self }),
    {
        Labeled { reserve_message: reserve, ..self }
    }

    /// Returns what is shown below the control: the message or else the
    /// hint; with neither, an empty line when one is kept.
    pub fn supporting(&self) -> (supporting: Supporting)
        ensures
            match supporting_text(*self) {
                Some((content, variant)) => supporting matches Supporting::Text { content: c, variant: v }
                    && c@ == content && v == variant,
                None => if self.reserve_message {
                    supporting is Reserved
                } else {
                    supporting is Nothing
                },
            },
    {
        match &self.message {
            Some((intent, message)) => Supporting::Text {
                content: message.clone(),
                variant: text::Variant::Semantic(*intent),
            },
            None => match &self.hint {
                Some(hint) => Supporting::Text { content: hint.clone(), variant: text::Variant::Muted },
                None => if self.reserve_message {
                    Supporting::Reserved
                } else {
                    Supporting::Nothing
                },
            },
        }
    }

    /// Returns the style of the marker placed after the label of a required
    /// control: danger text.
    pub fn marker(&self) -> (marker: Option<text::Variant>)
        ensures
            marker == if self.required {
                Some(text::Variant::Semantic(Intent::Danger))
            } else {
                None
            },
    {
        if self.required {
            Some(text::Variant::Semantic(Intent::Danger))
        } else {
            None
        }
    }
}

/// Once a message is set, the hint no longer shows, whichever was set
/// first; clearing the message brings the hint back.
pub proof fn law_message_wins_over_hint(labeled: Labeled)
    requires
        labeled.message is Some,
    ensures
        supporting_text(labeled) matches Some((content, variant)) && content == labeled.message->Some_0.1@
            && variant == text::Variant::Semantic(labeled.message->Some_0.0),
{
}


/// Without a message the hint shows, muted; with neither, nothing shows
/// as text.
pub proof fn law_hint_shows_muted_without_message(labeled: Labeled)
    requires
        labeled.message is None,
    ensures
        labeled.hint matches Some(hint) ==> supporting_text(labeled) == Some(
            (hint@, text::Variant::Muted),
        ),
        labeled.hint is None ==> supporting_text(labeled) is None,
{
}
} // verus!
