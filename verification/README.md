# zmouse

A per-device mouse remapper for macOS whose decisions are verified with Verus. Mouse buttons, and
the keystrokes that MMO-style thumb buttons type, are remapped per physical device, so that a mapping
of one mouse never affects another one or the keyboard.

## Layout

- `src/` — the verified library. It holds no I/O: events and configurations come in as plain values,
  decisions go out as plain values.
  - `config`, `mappings`, `validate`, `keymap`: the configuration, the lookup tables made from it,
    what is wrong with it, and the names of keys and modifiers.
  - `engine`: which device an event came from, and what to do with it at the event tap, with the
    scroll-wheel cleanup.
  - `editor`, `edits`, `forms`: the model behind the editor's window.
  - `hid`, `menu`, `report`, `probe`, `cli`, `files`: the devices on offer, the menu, the printed
    lines, the command line, and the place of the configuration file.
  - `config_laws`, `engine_laws`, `editor_laws`: what holds of all configurations, of all events and
    of all edits, as proved theorems.
  - `text`, `lists`: texts and lists, with their models.
- `tests/` — the library on concrete values.
- `app/` — the program: arguments, files (TOML), the HID stream, the event tap, the menu bar and the
  editor's window. `app/bin/icongen.rs` is a program of its own that draws the icon.

## What is trusted

One function: `files::config_dir`, which asks the `dirs` crate for the user's configuration
directory. Nothing is claimed of what it returns.
