# voxtype

The logic of the VoxType dictation client (hold a hotkey, speak, release to
type into the focused window), with its contracts and laws proved.

- `src/` — the library, every function with a proved contract:
  - `settings` — settings defaults, data-directory paths, the model catalog,
    candidate download URLs, installed-model layout checks, runtime executable choice;
  - `runtime_process` — `netstat`/`tasklist` parsing, runtime port selection
    (reclaiming only stale runtimes), health polling;
  - `voice_ws` — the `voxtype-voice-v1` session state machine and health reports;
  - `dictation` — the idle/recording/transcribing cycle and transcript clean-up;
  - `hotkey` — hold, toggle and auto (tap/hold) hotkey modes;
  - `model_download` — progress, resumable transfers, mirror order, ModelScope
    plans, install checks, model activation;
  - `integrity` — SHA-256 of downloads; `audio` — `pcm_s16le` framing;
  - `text`, `paths` — character-level text helpers and path joining.
- `app/` — the I/O around it: files, processes, HTTP, WebSocket, microphone, typing.
  The desktop shell (windows, tray, overlay, global-shortcut registration and
  shortcut parsing) is not part of this crate; `app/` reports UI events through
  its `Ui` trait, and a shell drives `HotkeyManager::on_event`.
- `tests/` — tests of the library on concrete values.
