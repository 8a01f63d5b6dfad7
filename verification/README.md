# transglass

TransGlass makes any window semi-transparent, keeps it on top, and lets mouse
or pen input pass through it to the windows below, driven by global hotkeys,
the extra mouse buttons, a tray icon and a small control panel.

- `src/` is the verified library: the registry of managed windows
  (`registry`), the low-level mouse hook's decisions (`hook`), the hotkey
  configuration and its parsers (`config`, `text`), the Win32 style and input
  computations (`winmsg`), the built-in tray icon image (`icon`) and the
  start-up self-check tally (`checklist`).
- `app/` is the Windows program around it: Win32 calls, the hook procedure,
  the hotkey thread, the egui control panel, the tray icon, the JSON
  configuration file and self-update.
- `tests/` exercises the library.
