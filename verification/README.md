# handy

Media control around a recording, and the request side of cloud
speech-to-text, for the Handy dictation app.

- `src/` is the library, verified with Verus: the pause/resume bookkeeping
  as steps around the platform call (`session`) and their composition by a
  single owner with a backend whose history records its calls (`manager`,
  with `ScriptedBackend`, a verified backend that answers from presets), the
  Linux MPRIS player choice and pause/resume stages (`mpris`), the Windows
  session choice and pause/resume stages (`windows_session`), small macOS
  decisions (`platform`), the transcription request and reply handling
  (`stt`), and the WAVE encoding (`wav`).
- `app/` holds what talks to the outside: D-Bus, WinRT, the macOS media key,
  HTTP, and the manager that the recording threads share. That manager is
  unverified glue: it holds the verified `session` steps under a mutex and
  makes the platform calls between them, with the lock released; it does
  not go through `manager`, whose backend calls are made under `&mut`.
- `tests/` runs the library on concrete values, including a byte-for-byte
  comparison of the WAVE encoding with hound's.
