# browsers

The verified core of Browsers, a link chooser that opens each URL in the
browser profile the user picks (or that a rule picks for them), together
with its release tooling.

- `src/` is the library, written in Verus and proved: the chooser's model
  (which profiles apply to a URL and in what order, settings values, keys,
  menus, picker placement, extra windows), the start-up flags and
  whether a start forwards to a running daemon, URL glob rules, profile-watch and debounce
  decisions, D-Bus activation planning, the next calendar version, and the
  packaging plans for Linux, macOS and Windows.
- `tests/` runs the library on concrete values.
- `app/` is the ordinary Rust around it: the command line, running the
  packaging plans on the file system, the session-bus client and service,
  and the file watcher.
