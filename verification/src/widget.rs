//! Widget behaviour and built-in style variants.
pub mod button;
pub mod checkbox;
pub mod container;
pub mod context_menu;
pub mod dialog;
pub mod dropdown;
pub mod field;
pub mod keyboard;
pub mod labeled;
pub mod navigation;
pub mod overlay;
pub mod pick_list;
pub mod progress_bar;
pub mod radio;
pub mod rule;
pub mod scrollable;
pub mod slider;
pub mod snackbar;
pub mod svg;
pub mod tab_bar;
pub mod text;
pub mod text_editor;
pub mod toggler;
