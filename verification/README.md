# ariatype

The decision logic of a desktop dictation tool: recording sessions and their
cancellation, the transcription pipeline's next step, shortcut profiles and
hotkey checks, settings with their updates and migrations, text polishing
(prompts, model tables, cloud request preparation), correction learning from
the user's edits, and the history dashboard. Every function in `src/` is
verified with Verus against its `requires`/`ensures` contract.

Layout:

- `src/` — the verified library, one module per area (`recording`,
  `transcription`, `shortcut`, `settings`, `polish`, `correction`, `history`,
  `audio`, `window`, `permissions`, ...). `text.rs` holds the verified string
  helpers the others share.
- `tests/` — tests run against the compiled library.
- `app/` — a small command-line program around the library: reading and
  writing the settings file, removing old logs and legacy model files, and
  building cloud polishing requests.

Properties that span several functions are stated as public `proof fn`s whose
names start with `lemma_` (for example, that a cancelled task is always
discarded, or that migrating shortcut profiles twice changes nothing).
