# lazyjira

Jira from the terminal: a command-line tool (`jira`) and a terminal
interface (`lazyjira`), built around a library whose logic is specified and
proved with Verus.

- `src/` — the verified library: parsing and writing the settings file,
  file paths, JQL queries and their history, status aliases and
  transitions, request addresses and error texts, the issue model and its
  listings, the full ticket view, the diagnosis report, the state machine
  of the terminal interface (selection, scrolling, query editing, key
  handling) and what its panes show.
- `app/` — the programs: argument parsing, files, HTTP, JSON and drawing
  with `ratatui`, handing plain values to the library and printing what it
  returns.
- `tests/` — tests of the library on concrete values.
