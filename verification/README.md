# brain_core

The accounting layer of the `brain` command-line tool: tasks, dispatches, dispatch
events, activity, session events, scope violations and projects, kept in a SQLite
database.

## Layout

- `src/` is the library, verified with Verus. It holds the value types and their text
  forms, the SQL statement each operation runs (text and bound values), the decisions
  taken on what the store answers (not found, parent checks, date checks, token totals),
  the JSON each command prints, the task tree and the plain-text task tables. Public
  functions state their results over spec functions in their `ensures`; where a result
  rests on the file system (finding the configuration file), the contract fixes which
  paths are asked about and in what order (`find_config_file_with` states the search
  exactly for any probe), and `first_existing` states the choice made on the answers.
- `app/` is the program around it: the `clap` command line, the SQLite connection
  (`rusqlite`), reading `.config/brain.toml` (`toml`), and running the library's
  statements.
- `tests/` runs the library on concrete values.

The outside calls that the library makes stand behind a few trusted items, each with a
doc comment that says what is assumed of it: `serde_json::to_string` on a string,
`chrono::NaiveDate::parse_from_str` for session dates, and `Path::ancestors`,
`Path::join` and `Path::exists` for finding the configuration file.
