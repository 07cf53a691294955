# rift (verified core)

The configuration, command and window-manager state logic of the rift tiling
window manager, written in Verus with its behaviour stated as contracts.

- `src/` — the verified library: configuration defaults and validation,
  hotkey spelling, command suggestions, reading and migrating the `[keys]`
  table of a configuration text, the
  scrolling-strip hint bar's model (columns, cells, render plans) and its
  actor's decisions, and the reactor's workspace-switch and refresh
  quarantine state.
- `tests/` — tests run against the compiled library.
- `app/` — what stays outside verification: floating-point screen geometry,
  chip layout, the reactor's feed to the hint bar, the driver that performs
  the actor's actions, and
  reading configuration documents.
