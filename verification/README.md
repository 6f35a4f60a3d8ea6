# hayate_kit_settings

Settings panel for the hayate-kit GUI toolkit, split in two:

- `src/` — the verified library (Verus): the versioned config schema and its
  defaults, reading a config text's version and dispatching on it, config-path
  resolution, the debounced save request, localized string tables, sidebar
  navigation, settings search, the state transitions of every section, the
  accent picker and reset confirmation flows, and the accent-colour helpers.
- `app/` — the program around it: command line, environment, disk I/O,
  serde (de)serialization of the config body, the contrast-ratio arithmetic in floating point,
  and the widget tree of the GUI toolkit.
- `tests/` — tests of the library.
