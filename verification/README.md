# Aether

The core of Aether, a terminal text editor with vim, nano, emacs and
"aether" key bindings, themes, a file picker, a command palette and an AI
sidebar, written as a Verus library whose behaviour is stated in contracts
and proved.

## Layout

- `src/` — the verified library.
  - `text`, `path`: the text model (characters, UTF-8 byte offsets) and paths.
  - `editor`: the line buffer with undo, the cursor, and documents.
  - `app`: the editor state and everything a key does to it (`handle_key`
    returns the effects, such as a file write, for the caller to carry out),
    the filtered lists, listing order, the status bar and chat text, what
    scripts may read and type, and `key_allowed`, which tells which keys the
    handlers are defined for.
  - `theme`, `icons`, `syntax`, `config`, `cli`, `updater`, `ai`, `chat`:
    themes and colours, file icons, settings and their paths, command-line
    arguments, version comparison, AI settings and what a chat request to
    each backend carries.
- `tests/` — tests of the library on concrete values.
- `app/` — the program around it: the terminal loop and drawing (ratatui,
  crossterm), reading and writing files, HTTP requests to the AI backends,
  the update check, syntax highlighting (syntect) and Lua plugins (mlua).
