# wxplus

A desktop assistant that watches which messaging application (WeChat and
others) is in front, remembers its window so that text can be typed into
it, and keeps a helper program downloaded, up to date and running.

- `src/` is the library, verified with Verus: string handling (`text`), a
  string dictionary (`dict`), platform names and paths (`platform`), the
  window list (`window`), the capture state and its commands (`capture`),
  the helper plugin's state and supervisor (`plugin`), and the update
  check (`update`), which decides step by step what the program fetches,
  checks and records.
- `app/` is the Tauri program around it: commands, the capture thread,
  the macOS window server, downloads and child processes.
- `tests/` exercises the library on concrete values.
