# Tower Stacker

A one-button stacking game: hold Space to grow a block, release to drop it, and rebuild each
level's blueprint tower closely enough to pass. A level editor orders the level files and edits
their blocks.

## Layout

- `src/` — the verified library (Verus). Every function carries a contract; Verus proves all
  of them except a few small wrappers around std (integer formatting, `String::push`/`pop`,
  `char::is_alphanumeric`) and serde_json (reading and writing a list of strings), whose
  contracts are trusted.
  - `flow` — screens, lives and level progression of a run.
  - `play` — build progress of a level, settle and per-block rest clocks.
  - `score_bar` — tier points of settled blocks against the level target, green streaks.
  - `levels` — built-in sequence, the level files embedded in the browser build, reading and
    writing `sequence.json`.
  - `sequence`, `canvas`, `handles` — the level editor's sequence list, canvas and resize
    handles.
  - `editor` — the in-game editor's status line and file-name field.
  - `wav` — the in-memory WAV container for synthesised sounds.
  - `noise` — the integer hash behind per-block randomness.
  - `text` — decimal formatting, character filters and `.json` names.
- `tests/` — tests of the library on concrete values.
- `app/` — the Bevy and avian2d program around the library: rendering, physics, audio,
  input and file I/O (`--editor` starts the level editor).
