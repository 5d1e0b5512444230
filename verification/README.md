# garfield

The logic of a desktop file manager and file picker, verified with Verus:
navigation history, undo/redo, clipboard, sorting and selection, the list,
grid and column views, tabs, breadcrumb and address bar, dialogs, key and
pointer dispatch, the trash (`.trashinfo` files, unique names), the shared
`recently-used.xbel` file, desktop entries and the "Open With" picker, and the
file chooser portal's requests and answers.

## Layout

- `src/` is the verified library. Each module states its behaviour in
  `requires` / `ensures` contracts over spec functions and views, and the
  laws that relate several operations stand as public proof functions
  (`law_*`).
- Calls into outside crates (quick-xml, chrono, dirs, nucleo-matcher,
  freedesktop_entry_parser) and into std where vstd gives no specification
  go through small trusted wrappers; each one's doc comment says what its
  contract claims of the outside function.
- `tests/` runs the library on concrete values.
- `app/` is `garfieldctl`, the command-line client that sends requests to a
  running garfield over its socket.
