# harnex

The verified core of Harnex, a desktop shell around the DeepSeek Harness web
service: it launches the service, follows its status and log, runs commands for
the pages, and follows the theme and language set in the service.

- `src/` is the library, proved with Verus: reading the service's YAML settings
  (`prefs`, `theme`), the service's status machine, its capped log, the reading of
  `netstat` and the port probe (`process`), the command lines (`launch`), the
  settings and remembered window placements (`config`), the per-window command
  sessions (`term`), tray and window decisions (`shell`), decimal numerals
  (`number`) and text primitives (`text`).
- `app/` is the Tauri application: windows, tray, files, processes and sockets.
  It asks the library for its decisions and performs them.
- `tests/` runs the library on concrete values.
