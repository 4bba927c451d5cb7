//! Moonveil: a theme and design framework for iced.
//!
//! This crate holds the parts of the framework whose behaviour is stated and
//! proved: token roles and their labels, the dialog and snackbar lifecycles,
//! the keyboard and pointer navigation of context menus and dropdowns, and
//! the built-in style variants of every widget.
pub mod theme;
pub mod time;
pub mod token;
pub mod widget;

pub use theme::{Metadata, Polarity, Seed};
