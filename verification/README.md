# phosh-first-boot

The logic of Phosh's first-boot setup app, verified with Verus.

- `src/` is the verified library: username rules and derivation
  (`username`), the user page's form state and the homed user record
  (`user_page`), the locale assignments for localed (`locale`), the
  configurable defaults (`defaults`), password-hashing errors (`crypt`), the
  exported dconf settings (`dconf`), the first-run flag (`done_page`) and a
  page helper (`page`). `text` holds the two std string primitives the
  library relies on.
- `app/` is the GTK application around it: widgets, D-Bus calls to homed and
  localed, libcrypt, configuration file reading, and the settings importer.
- `tests/` runs the library on concrete values.
