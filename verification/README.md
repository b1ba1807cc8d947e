# xiaodao-core

Core of the Xiaodao voice input method: press a hotkey, speak, and the
transcript (optionally polished by an LLM) is pasted at the cursor; a second
hotkey rewrites the selected text by a spoken instruction.

`src/` is the verified library (Verus):

- `hotkey`, `hotkey_laws` — the hotkey state machine (toggle / hold / locked
  recording, cancel rules, preview pacing) and its proved properties.
- `pipeline` — what happens after a recording stops (dictation and voice
  rewrite) as a state machine the worker thread drives.
- `paster` — paste and selection-capture clipboard transactions.
- `polisher`, `context` — styles, prompts, the replacement table, LLM
  requests and replies, per-application styles.
- `settings`, `history`, `paths`, `model_download`, `permissions`, `menu`,
  `commands`, `platform`, `hud`, `keys`, `types` — the settings model,
  history log, data layout, download decisions and the texts and choices of
  the UI.
- `text`, `strmap` — character-level string helpers and an ordered text map.
- `json_tree` — settings.json as a tree of objects and its deep merge, which
  the settings page reads through `commands::get_settings`.
- `laws` — properties that span several functions.

`app/` is the desktop runtime around it: settings and history files, the
HTTP client, the model download, audio capture, the speech model, the
keyboard hook, clipboard and key injection, and the threads that drive the
library's state machines.
