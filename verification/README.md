# DLsite renamer

Renames folders of DLsite works after their metadata (`RJ123456 [circle] title`),
fetched from DLsite and cached in SQLite, and downloads their covers.

- `src/` is the library, verified with Verus: reading a work's metadata out of its
  page (`dlsite`), judging fetch results and locating covers (`dlsite_scraper`),
  guessing a work's language (`work_metadata`), naming folders and ordering the rename
  steps (`renamer`), the steps of a cached lookup (`cached_scraper_db`), checking the
  settings (`config`), finding RJ codes in folder names (`scaner`), a JSON value model
  (`json_value`) and string operations (`text`).
- `app/` is the program around it: the window (eframe), HTTP requests (ureq), the
  SQLite cache (rusqlite), walking directories (walkdir), reading and writing JSON
  (serde_json), logging.
- `tests/` run the library on concrete values.
