# sheepdog

Sheepdog finds Python virtual environments (directories holding a
`pyvenv.cfg`), indexes their installed packages and declared dependencies
into a SQLite cache, and serves them to a terminal interface (`sheepdog cli
...`) and a desktop GUI.

## Layout

- `src/` — the verified library (Verus). Every function carries a contract
  over mathematical models (`Seq<char>` for text, `Map` for the PyPI cache):
  - `parser` — `pyvenv.cfg`, `.dist-info/METADATA` and `Requires-Dist` parsing;
  - `export` — the consolidated CSV export (cell quoting, stable header);
  - `table`, `cli` — terminal tables, CLI errors and argument types;
  - `disk_usage` — human-readable sizes, computed exactly with integers;
  - `pypi` — reading PyPI's answer (through serde_json), the cache of latest
    versions and the outdated decision;
  - `scanner`, `project_files`, `indexing`, `service`, `demo` — the rules of
    walking, serving config files, indexing, progress reporting and demo data;
  - `text`, `numfmt` — character-level helpers and decimal rendering.
- `tests/` — tests of the library on concrete values.
- `app/` — the program around it: argument parsing (clap), the SQLite cache
  (rusqlite), filesystem walks (walkdir), PyPI requests (reqwest), JSON
  export (serde), clock and directories (chrono, dirs), and the Tauri GUI shell.
