# Celeste

The verified core of a desktop client that keeps local directories in step with
cloud storage.

- `src/` holds the logic, proved with Verus: how a path is found on a Proton
  drive and what is done there (`infrastructure/proton`), which adapter serves
  which remote (`infrastructure/client_router`), what an error message means
  (`infrastructure/translators`), the tray pixmaps (`infrastructure/tray`,
  `icons`), the calls into the Go archive (`go`), how sessions are kept
  (`services/auth`), what a sync pass decides (`services/sync`), the state
  behind the windows (`app`) and what the screens show (`screens`, `widgets`).
- `tests/` runs it on concrete values.
- `app/` carries out what the library asks for: the foreign calls, the keyring,
  the credential files, the renderer, the tray and the windows.

Work that waits for the outside is written as a step: something to do and the
state that takes its outcome, or the end. The laws (`law_*`) say what holds of
all runs of such a machine, and of several functions together.
