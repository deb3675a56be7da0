# wsl_manager_tui

`wslm`, a terminal UI to manage WSL distributions, with its logic written as
a Verus-verified library.

- `src/` — the library. Its functions are verified, except four small trusted
  wrappers whose contracts are taken on trust: `String::from_utf16_lossy` and
  `String::from_utf8_lossy` (`wsl/decode.rs`), and `unicode-width`'s character
  and string widths (`display.rs`). Two std methods, `String::push` and
  `String::pop`, get assumed specifications (`text.rs`). The library holds:
  - `app/` — the model, the reducer (`update`) with its state-machine
    specification, dialogs, the configuration editor, and laws about them
    (`laws.rs`, `edit_laws.rs`);
  - `config/` — the INI document (`.wslconfig`, `wsl.conf`) and its laws;
  - `wsl/` — parsing and decoding of `wsl.exe` output, merging with the
    registry, and the argument lists of every `wsl.exe` call;
  - `metrics.rs`, `manage.rs`, `prefs.rs`, `registry.rs`, `i18n.rs`,
    `display.rs`, `text.rs` — resource history, the managed export folder,
    preferences, registry entries, the bilingual catalog, display helpers
    and the string functions the rest is built on.
- `tests/` — tests of the library.
- `app/` — the program around it: the terminal, the event loop that performs
  the reducer's commands, processes, files, the registry and system calls.
