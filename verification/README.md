# bdo_optimizer_launcher

A Windows tool that starts Black Desert (`BlackDesert64.exe`), applies a CPU priority and
core affinity per mode (high performance, normal, low power), switches modes on a
timetable (daily, weekdays, weekends, a date) or when the game window hides, schedules PC shutdowns through the Windows task
scheduler, registers itself to start at logon, and reports the game's resource use.

## Layout

- `src/` is the library, written in Verus. The tool's rules and decisions are here with
  contracts: schedule rules and which one is active, the automation state machine, the
  mode parameters and CPU masks, process lookup, launcher path checks and the verified
  start sequence, the protected-location check before autostart registration, the
  steps of a mode request and its re-applications, shutdown and autostart task commands and the replies to them, task XML
  parsing, settings validation and normalisation, update URL checks, the frame-rate event
  window, and the texts shown to the user. `src/laws.rs` states the properties that span
  several functions (what a toggle twice gives back, that a new rule id is fresh, that the
  automation never re-applies the mode in force, ...).
  System calls enter the library as closures or as plain values, so the library itself does
  no I/O; each closure's `requires` says when it may be called (nothing is started while
  the game runs, nothing deleted before it was found, and so on). The few calls into `chrono` and std that it makes stand behind small trusted
  wrappers whose doc comments say what is assumed of them.
- `tests/` runs the library on concrete values.
- `app/` is the command-line front end: it reads the system (Win32, ETW, the task
  scheduler, files), hands plain values to the library and performs what it decides. It
  depends on the `windows` and `ferrisetw` crates and builds on Windows only.
