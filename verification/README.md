# song-bin

A desktop proxy client built around the sing-box core.

- `src/` is the verified library (Verus): share-link, sing-box and Clash
  parsers, subscription content, imports, the sing-box configuration
  generator, the application state, settings and log levels, speed
  formatting, the registry commands of the Windows system proxy, the choice
  of the core's release asset, the "new node" form, and the plain state of
  the window (tabs, sidebar rows, status bar texts).
- `tests/` runs the library on concrete inputs.
- `app/` is the program: the gpui window, files on disk, HTTP, the core
  process, the registry, and the JSON form of the saved data.
