# Fontick

Fontick is a desktop font picker for Adobe Photoshop: it lists the fonts that
Photoshop knows, lets the user search them (also by pinyin), and applies a
font, or a composite font built from rules, to the current text layer.

This crate holds Fontick's logic as a library whose behaviour is specified
and proved with Verus, plus the desktop application around it.

## Layout

- `src/` — the verified library
  - `composite_font.rs` — composite-font definitions, their validation, and
    their compilation into a font list and code-point ranges; laws about the
    compiled result
  - `unicode_ranges.rs`, `unicode_data.rs` — the General_Category and
    Script_Extensions table that the compiler reads, parsed from text and
    proved well formed
  - `font_meta.rs` — weight class and names from OpenType/TrueType files, and
    the index of installed fonts
  - `search.rs` — the search text of a font, with pinyin
  - `photoshop.rs` and `photoshop/` — the ExtendScript programs and the
    Windows (COM), macOS (AppleScript) and unsupported-platform clients: what
    is sent to Photoshop and what a reply leads to, with the system calls
    handed in by the application; retrying a busy Photoshop, focusing the
    text view, capturing the selected text through the clipboard, key chords,
    process lists and `osascript` results
  - `user_data.rs` — what is kept between sessions and how it is normalised
  - `theme.rs` — reading Photoshop's UI theme from a probe script
  - `commands.rs` — what the application's commands compute
  - `text.rs` — character-sequence helpers shared by the modules
- `tests/` — tests of the library on concrete values
- `app/` — the Tauri application: commands, file and process I/O, the
  platform clients' system calls (COM, SendInput and the Win32 clipboard on
  Windows; `osascript`, CoreGraphics events and the pasteboard on macOS),
  which run the library's steps, and the JSON shapes of the front end and the
  user-data file

Calls into `pinyin`, `serde_json` and a few std functions go through small
trusted wrappers whose doc comments say what their contracts claim.
