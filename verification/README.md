# todoroc

A terminal todo manager: topics and todos stored in SQLite, natural-language
due dates, a daily briefing, semantic search over local sentence embeddings,
and GitHub and Jira integrations.

The logic is a library verified with Verus (`src/`); the program around it
(`app/`) does the input and output: the terminal, the database, the model,
the command-line tools of GitHub and Jira, and the network.

## Library (`src/`)

- `models` — topics, todos and comments, with their mathematical views.
- `text` — character sequences: trimming, splitting into words, searching,
  decimal numbers.
- `order` — the bucketed order of the todo list and a stable sort into it.
- `cal` — calendar days as day numbers; conversions go through chrono.
- `due_date` — reading due dates (`3d`, `3wd`, `fri`, `next mon`, `eow`,
  `W16`, `16w`, `20-04-2026`, …), due badges and header labels.
- `lifecycle` — the four states of a todo, the priority cycle, snoozing.
- `briefing` — ranking and sectioning of the daily briefing, its layout.
- `search` — picking search results from a ranking and comment matches.
- `github`, `jira`, `schema`, `sync` — what the integrations and the
  database bootstrap decide.
- `ui`, `rows`, `editing` — the text of the views and line editing.
- `app` — the state of the views and the operations on it.
- `input` — what a key does: a state change plus the outside work to do
  (`Effect`), layer by layer.

## Program (`app/`)

`main.rs` reads the arguments and runs the event loop; `tui.rs` performs the
effects the library asks for; `db.rs`, `embeddings.rs`, `setup.rs`,
`github.rs`, `jira.rs`, `sync_job.rs` and `ui.rs` do the storage, the model,
the downloads, the integrations, the background sync and the drawing.
