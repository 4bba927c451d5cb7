//! Overlays shown above other content.
pub mod menu;
