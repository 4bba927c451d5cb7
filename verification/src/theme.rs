//! Authored theme metadata, polarity and seed colors.
use vstd::prelude::*;

verus! {

/// Human-readable information about a theme.
#[derive(Debug, Clone, PartialEq, Eq)]
pub struct Metadata {
    /// The display name of the theme.
    pub name: String,
    /// An optional description of the theme's visual character.
    pub description: Option<String>,
}

/// Whether a theme is designed around dark or light surfaces.
#[derive(Debug, Clone, Copy, PartialEq, Eq, Structural)]
pub enum Polarity {
    Dark,
    Light,
}


/// Seed colors from which resolved tokens are derived, over any color type
/// `C`.
#[derive(Debug, Clone, Copy, PartialEq)]
pub struct Seed<C> {
    pub background: C,
    pub foreground: C,
    pub tint: C,
    pub shade: C,
    pub accent: C,
    pub success: C,
    pub warning: C,
    pub danger: C,
    pub info: C,
}
} // verus!
