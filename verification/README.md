# scholar_ai

Provider configuration and sidecar control for the ScholarAI desktop app,
verified with Verus.

- `src/` — the verified library: the configuration model (`models`), the
  configuration manager and its keychain decisions (`config`), the provider
  commands (`commands`), the Python sidecar decisions (`ai_bridge`), string
  building (`text`), platform conventions (`platform`) and the laws that
  relate the operations (`laws`). It performs no I/O: each operation takes
  what was read and returns what is to be written or run.
- `app/` — the I/O around it: the config file and its JSON form, the OS
  keychain (`keyring`), processes, and the sidecar's HTTP traffic (`reqwest`,
  `tokio`).
- `tests/` — tests of the library.
