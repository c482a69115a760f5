# Aemeath

A desktop pet that shows what a coding assistant in a terminal is doing.

- `src/` is the library: the states and what they show (`state`, `event`), the shared state
  (`manager`), the requests (`http`, `routes`), the session log (`session`, `json`), the terminal's
  window (`window`), and the commands that are started (`shell`, `autostart`, `webui`). `text` holds
  what all of them need of texts. Every function carries a contract that Verus proves,
  but for the few that call `serde_json` or the standard library: their contracts are stated beside
  the calls, in `json` and `text`.
- `app/` is the program around it: the HTTP server, the files, the processes and the window.
- `tests/` runs the library on concrete values.

The program reads `aemeath.json` beside itself, and every part of it may be missing:

- `catalog`: the texts of the states and the names of the hooks. Without it both are the names of the
  states.
- `terminal_terms`: the terms, in lower case, by which the terminal's window is found. Without them
  the pet pastes into the window that was in front when it started.
- `assistant_dir`: the name of the assistant's directory in the user's home. Without it no session is
  shown and the web interface is not opened.
