# dictationapp

Push-to-talk dictation for Wayland: hold a key, speak, and the cleaned-up
transcript is typed into the focused window and put on the clipboard.

The decision-making of the program is a Verus-verified library (`src/`):

| Module | What it decides |
| --- | --- |
| `session` | the pill's state machine (Idle → Recording → Transcribing → Cleaning → Typing), its messages and when the pill window exists |
| `api` | the cleanup prompt and token budget, the base64 audio payload, which replies are accepted |
| `config` | how config.toml, `OPENROUTER_API_KEY` and the defaults combine; the saved text |
| `hotkey` | key names, hold/toggle modes, debouncing of key events, which input nodes to open and retry |
| `ipc` | socket and command-line commands |
| `typer` | the character-to-key table, the taps a string becomes and the key events of each tap |
| `audio` | microphone names offered and the device a configured name selects |
| `beep` | which cue plays, its tones and the players tried in turn |
| `niri` | where the pill goes and the `niri msg` actions that move it |
| `settings` | editing rules of the settings form and the config it saves |
| `text` | trimming, comparison and formatting helpers |

`app/` is the program around it: the gpui windows, cpal capture, the HTTP
calls, evdev/uinput, the control socket and file access.
