# packybara

A library for the packrat database of package version pins: which version
(distribution) of each package is pinned at which coordinates (level,
role, platform and site), and which packages go with each pin.

The library builds the SQL text and parameters of every search, add and
update, and reads the rows that come back into typed values. Its
behaviour is stated in `requires` / `ensures` contracts and proved with
Verus.

Layout:

- `src/` — the verified library: names and coordinates (`level`, `role`,
  `platform`, `site`, `coords`, `ctx`, `distribution`), the searches
  (`db::find`, `db::find_all`), the statements that add and change rows
  (`db::add`, `db::update`), the structure of packages.xml
  (`io::packages_xml`), what the version pin listing shows
  (`cmd::versionpins`) and text helpers (`text`).
- `tests/` — tests of the library on concrete values.
- `app/` — the command line: argument parsing, the database connection,
  running the statements, printing tables and writing packages.xml; copies
  of the changeset types that carry serde's derives.
