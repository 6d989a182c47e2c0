# sysmon

The decision logic of a small desktop system monitor (a floating CPU / memory /
network panel, a network speed window embedded in the taskbar, and a tray
menu), written in Verus with its contracts proved.

- `src/` — the verified library:
  - `text` — character search, ASCII case folding, UTF-16 encoding;
  - `logger` — log level names;
  - `sys_info` — which interfaces count, traffic totals (over `sysinfo`'s
    interface list), the sampler that turns totals into byte deltas, speed units;
  - `settings` — the stored settings, their defaults and updates;
  - `taskbar_window` — embedding the speed window into the taskbar and placing it;
  - `tray_popup_window`, `tray` — the tray popup's state and menu, tray clicks;
  - `window_rules` — close requests, rounded window regions, drop shadow;
  - `gpu` — which GPU counter instances count, when a counter array is read.
- `tests/` — tests of the library on concrete values.
- `app/` — the Tauri / Win32 program around the library: windows, tray, timers,
  the settings file, logging, floating-point speed and usage figures.
