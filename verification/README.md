# graph_notes

A terminal application for managing notes and typed links between them
(`reference`, `related`, `parent`, `child`) in SQLite, with layered
configuration (command line, `GRAPH_NOTES_*` environment variables, a TOML
file, built-in defaults).

The library under `src/` holds the decision logic, verified with Verus:

- `text`: white space as `char::is_whitespace` sees it, blank texts, and the
  removal of every occurrence of a pattern (`str::replace(.., "")`).
- `config`: the priority of the configuration sources and where the
  configuration file is looked for.
- `db::connection`: the database file named by a URL; the errors of the pool.
- `db::notes`: note validation, and what each note query's outcome means.
- `db::links`: link types and their names, what each link query's outcome
  means, and `RelationshipBatch`, which drives the all-or-nothing creation of
  linked note pairs inside one transaction.
- `cli`: the command-line definition as plain data (`Args::definition`), the
  `clap` command built from it and the reading of what `clap` matched (both
  stated over names for `clap`'s deterministic calls), and `AppSession`, which
  drives one command as a sequence of requests to the store.
- Every error type has a `message` method giving the text shown for it.
- `json`, `outside`: the calls into `serde_json` and the outside types carried.

`app/` is the program around it: `sqlx` queries and the schema, the `tokio`
runtime, logging, reading the configuration file and the environment, and
printing results as pretty JSON.
