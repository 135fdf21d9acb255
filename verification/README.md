# dell_controller

Control of Dell monitors over MCCS/DDC-CI, with its logic verified by Verus.

- `src/` is the verified library: the capabilities string parser, VCP codes
  and values, monitor profiles, snapshot diffs, the Windows HDR target
  mapping and change rules, the autostart entry check, the tray
  application's controller state machine and worker queue, the window
  layout, global shortcut bindings, and the `dellctl` command rules and
  output lines. Contracts state results over mathematical models. Where
  the library talks to the system (the worker's device, the display
  configuration, the hotkey registrar, the advanced-color event source),
  the calls go through logging wrappers, and the contracts state which
  calls are made, with which arguments, and what follows from each
  answer; what the system answers is its own. The `law_*` proof functions
  state what holds across calls.
- `app/` is the `dellctl` program and the I/O edges of the tray
  application: argument parsing, JSON and TOML files, the DDC command
  queue, the worker thread and the system hotkey registrar. The Win32
  monitor, display-configuration and registry calls and the tray window
  itself are not part of this build, so no monitor is found.
- `tests/` runs the library on concrete cases.
