# lazyqmk

The dialogs and editing state of the LazyQMK keyboard layout editor, as a
Verus-verified library.

- `src/` holds the verified library: the key clipboard, the help overlay and
  its content, the help registry, the build log, the category manager and
  picker, the color picker, the layout variant picker, the external-change
  prompt, the onboarding wizard, rectangle selection, keycode inspection and
  the dialog states kept by the application. Each public function states what
  it does over a mathematical model of its type; the laws that relate several
  operations are public proof functions (`law_*`).
- `tests/` exercises the library on concrete values.
- `app/` is the terminal side: key events from crossterm, the help file read
  with serde and toml, color themes, drawing with ratatui, and the file-system
  lookups the onboarding wizard asks for.
