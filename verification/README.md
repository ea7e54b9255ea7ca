# openscq30

Verified core of the OpenSCQ30 desktop tools for the Soundcore R50i NC (model
`SoundcoreA3959`), written in Verus.

- `src/packet`, `src/structures`: the packet bodies the earbuds send (dual
  connections snapshots, charging state) as functions on bytes, with their
  contracts and round-trip lemmas; sound modes and addresses.
- `src/modules`: how a dual connections snapshot updates the device state, and
  the decisions of the equalizer state modifier.
- `src/settings`, `src/backend`, `src/properties`, `src/connection`: the settings
  model, what the Qt settings window reads out of each setting and sends for
  each user action, its category list and settings page, and its connection
  screen as a state machine (including which paired device it connects to).
- `src/tray`, `src/gui_tray`, `src/gui_app`: the tray menus, tool tips and
  commands of the Qt and COSMIC apps and how they read a device's settings, and
  the COSMIC window's first state, screens, drawers, language choice and warning queue.
- `app/`: the `ksni` tray services around the library, and the floating-point
  battery percentage.

The tests under `tests/` run the library with `cargo test`.
