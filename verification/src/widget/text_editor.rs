//! Text editors: their built-in style variants, drawn with the shared field
//! look.
use vstd::prelude::*;
use crate::widget::field;

verus! {

/// A built-in text editor style.
#[derive(Debug, Default, Clone, Copy, PartialEq, Eq, Structural)]
#[non_exhaustive]
pub enum Variant {
    /// An editable field with a strong boundary.
    #[default]
    Standard,
    /// A lower-emphasis editable field.
    Subtle,
    /// A recessed field intended for code-like content.
    Code,
    /// A field whose value is invalid.
    Invalid,
}

/// The field look that draws a text editor variant: the one of the same name.
pub open spec fn editor_field_variant(variant: Variant) -> field::Variant {
    match variant {
        Variant::Standard => field::Variant::Standard,
        Variant::Subtle => field::Variant::Subtle,
        Variant::Code => field::Variant::Code,
        Variant::Invalid => field::Variant::Invalid,
    }
}

/// Returns the field look that draws a text editor variant.
pub fn field_variant(variant: Variant) -> (field_variant: field::Variant)
    ensures
        field_variant == editor_field_variant(variant),
{
    match variant {
        Variant::Standard => field::Variant::Standard,
        Variant::Subtle => field::Variant::Subtle,
        Variant::Code => field::Variant::Code,
        Variant::Invalid => field::Variant::Invalid,
    }
}


/// Each text editor variant is drawn with the field look of the same name.
pub proof fn law_editor_field_variants()
    ensures
        editor_field_variant(Variant::Standard) == field::Variant::Standard,
        editor_field_variant(Variant::Subtle) == field::Variant::Subtle,
        editor_field_variant(Variant::Code) == field::Variant::Code,
        editor_field_variant(Variant::Invalid) == field::Variant::Invalid,
{
}
} // verus!
