# moonveil

A theme and design framework for iced, with its behaviour stated and proved
in Verus.

- `src/` is the verified library: token roles and their labels, the resolved
  color sets over any color type, the dialog and snackbar lifecycles, the
  keyboard, pointer and shortcut handling of context menus and dropdowns,
  the caption rules of labeled controls, the modal routing of dialogs, the
  built-in style variants of every widget, and the tokens that buttons,
  checkboxes, pick lists, radio buttons, sliders, togglers, tab bars, text,
  SVG images, rules and progress bars draw with.
- `tests/` runs the library on concrete values.
- `app/` is the iced glue around it: it reads iced's keyboard and clock into
  the library's plain values, applies the library's decisions to an iced
  shell, and keeps what is computed in floating point (color spaces, menu
  geometry).

The context menu's hover delay is counted in nanoseconds from an origin
that the application picks; `app/input.rs` converts iced's instants.
Snackbar entries carry the iced `Instant` at which they were created.
