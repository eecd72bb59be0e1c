# argusx

The verified core of the ArgusX agent tools.

- `src/` is the library, verified with Verus. The turn engine is a reducer:
  `reducer::reduce` takes a turn's state and one runtime event and returns the
  next state with the transcript items, stream events and effects of the step.
  `turn_spec` states what a step is, `turn_laws` proves what every step keeps.
  The other modules hold the BigModel chat mapping, terminal rendering,
  settings, Gitolite commands and their replies, the decisions of the
  command-line LLM clients, and the desktop application's records.
- `tests/` runs the library on concrete cases.
- `app/` is the command-line tool that runs a turn against the BigModel API,
  together with the parts that touch the outside world: HTTP, processes,
  repositories on disk, SQLite, settings files and logging.
