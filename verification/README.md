# cosmic_widgets

The decision logic and models of the COSMIC widget toolkit, written in
Verus: each widget's state, what an event does to it, and what a widget
shows, stated in `requires` / `ensures` contracts and proved.

- `src/` is the verified library. Each module holds one widget or concern:
  drag-and-drop sources and destinations, dropdowns, the calendar, the
  color picker, context menus, dialogs, expanders, header bars, grids and responsive rows,
  buttons, icons, animated images, the context drawer, the settings portal
  subscription, and the theme's variants. Calls into `jiff`, `image` and
  the standard library stand behind small trusted wrappers whose contracts
  say what is relied on.
- `app/` is ordinary Rust around the library: identifiers drawn from
  process-wide counters, the icon theme lookup, file reading, the settings
  portal connection, color conversions and layout on floating-point sizes.
- `tests/` runs the library on concrete values.
