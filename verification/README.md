# mixer_hotkey

Hotkeys that mute, unmute or change the volume of the audio sessions of
chosen applications, configured in `config.toml` (see the bindings format:
`app`, `key`, `modifier` with Alt 1, Control 2, Shift 4, Windows 8, and
`delta`, where 0 toggles mute).

Layout:

- `src/` — the verified library (Verus):
  - `config.rs`: bindings, the configuration, and hotkey planning (which
    sessions each binding controls, which identity each hotkey gets).
  - `utils.rs`: modifiers, audio sessions, hotkeys and the step-by-step
    execution of a hotkey.
  - `scan.rs`: the step-by-step listing of the audio sessions of the
    default output device, including UTF-16 decoding of process names.
  - `control.rs`: the console menu and the hotkey message loop decisions.
  - `text.rs`: substring search over strings.
- `app/` — the Windows program around it: configuration file loading (TOML),
  the COM audio interfaces, hotkey registration and the message queue.
- `tests/` — tests of the library.
