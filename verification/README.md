# easy-move-resize

Move and resize any window by holding a modifier key (Ctrl + Alt by default)
and dragging anywhere inside it: the left button moves the window, the right
button resizes it, the grabbed 3x3 region choosing which edges follow.

- `src/` is the verified library: rectangle arithmetic (`geometry`), the drag
  state machine of the mouse hook (`gesture`), modifier keys (`config`), the
  tray menu and its commands (`tray`), launch-at-login data (`autostart`),
  the overlay label and colours (`overlay`), the log line and log target
  (`dlog`), and text helpers (`text`).
- `app/` is the Windows program around it: the low-level mouse hook, the
  tray icon, the registry and the overlay window, through the `windows`
  crate. It builds only for Windows targets.
- `tests/` exercises the library on concrete values.
