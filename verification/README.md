# roder_tui

The logic of the roder terminal interface as a verified library: every
function under `src/` carries a `requires`/`ensures` contract that Verus
proves, and the laws of the library stand there as proof functions.

## What `src/` holds

- **State machine and routing:** `tui_state` (what a key, a server event or a
  tick does to the screen's flags and the running turn), `key_route` (where a
  key goes), `turn` (the stuck-turn watchdog and the token counters).
- **Start-up:** `session` (the thread, model, provider and title chosen for a
  new, resumed or team thread; the server settings with their defaults),
  `startup`, and `tui_config` (the TUI settings read from the config file's
  text, parsed by the `toml` crate behind one trusted wrapper).
- **Layout:** `layout` (panel heights, hit tests, rectangles) and
  `body_layout` (the rows of the main screen in order).
- **Provider popup:** `menu`, `menu_item`, `menu_cursor`, `menu_keys`,
  `menu_action`, `menus`, `popup`, `popup_lines` and `popup_view` (the
  search and its ranking, the rows and their markers, the keys, and what
  choosing a row does), plus `provider_list` and `model_select`.
- **Dialogs and panels:** `dialog`, `dialog_view`, `chrome`, `chrome_panel`,
  `footer`, `status`, `sheen`, `context`, `timeline_rows` and `transcript`.
- **Text, paste, files and settings:** `text`, `paste`, `paste_route`,
  `files`, `composer`, `commands`, `config`, `settings`, `voice_config`,
  `theme`, `tools`, `reports` and `terminal`.

Calls into std and outside crates that only compute (`std::path`,
`str::to_lowercase`, `{:?}` formatting, `base64`, `serde_json` and `toml`)
stand behind `external_body` wrappers whose contracts say what the call
returns, or give its result a name.

## What `app/` holds

`app/` is ordinary Rust around the library: reading keys and the
terminal's environment, the config file on disk, the workspace's files and
images, the clock, the float parts (the scroll speed and the context-window
percentage), turning the library's colours, rectangles and styled lines
into ratatui's, and the terminal loop in `app/run.rs`, which feeds the
library's state machine and does what each step leaves to it. The crates
of the app server that the full program talks to are not part of this
build; server events reach the loop through a channel.
