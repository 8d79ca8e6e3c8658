# EnergyFlag

A tray program for Windows that switches the active power plan between two
profiles: Remote Mode (never sleeps or hibernates, only the display turns off)
and On-Site Mode (energy-saving timeouts).

- `src/` is the verified library: the profiles and the `powercfg` runs that
  apply them, the mode stored in the registry and read back, the tray's texts
  and menu, the Remote-Mode-only aids (the "EM CONTROLE REMOTO" veil and 0%
  brightness) and what each change must show or undo, UTF-16 text for the wide Win32 calls, window geometry and hit
  tests, the modal dialog's state machine, and the update check (release JSON,
  version tags, and the update flow as a state machine).
- `app/main.rs` is the Win32 program around it: the message loop, the tray
  icon, GDI painting, the registry, `powercfg`, downloads and the installer.
- `tests/` runs the library on concrete values.
