# g502hub

A lightweight manager for the Logitech G502 LIGHTSPEED mouse on macOS: battery,
DPI, RGB lighting, onboard/host mode, side-button macros, a command line and a
menu bar app.

## Layout

- `src/` — the library, verified with Verus. It holds everything the program
  decides: HID++ 2.0 frames and reply matching (`hidpp`), device discovery
  (`device`), the features (`features/`: battery, DPI, lighting, indicator strip,
  onboard profiles), the configuration model (`config`, `named_map`), the key
  table and key combinations (`key_table`, `key_facts`, `macro_keys`), the macro
  recorder and event-tap decisions (`macro_engine`), the apply run and the live
  lighting/DPI channels (`controller`), the menu, poller and panel logic (`menu`,
  `panel`, `color_picker`), the command line's texts and rules (`cli`) and the
  protocol probe's lines (`probe`).
- `app/` — the program around it: hidapi I/O, the configuration file (serde),
  the CoreGraphics event tap and playback, the tray menu and the AppKit panel.
- `tests/` — tests of the library on concrete values.
