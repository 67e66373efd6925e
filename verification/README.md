# gbar

A vertical status bar for the niri Wayland compositor: workspaces, a clock,
a CPU button and the battery state, drawn with gpui.

- `src/` is the verified library (Verus): the workspace list and how niri's
  events change it (`workspace`, `event`), the decoding of the embedded logo
  (`png`), the widgets' decisions (`component`, `widget`) and number
  formatting (`text`).
- `global` holds the values shared between threads behind a private
  `std::sync::RwLock` and sends the change notification. Those effects are
  trusted, not modelled: the contracts say nothing of what a shared value
  holds or of what a channel receives, since other threads share them.
- `app/` is the program around it: the niri socket, the gpui window and the
  widgets' drawing, which work with floating-point sizes and async tasks.
- `tests/` exercises the library on concrete values.
