# clockify_tui

A terminal client for the Clockify time tracker.

- `src/` is the library, verified with Verus: the application state and what
  every key press and background result does to it (`state`), the texts and
  figures each panel shows (`view`, `calendar`, `totals`), calendar dates as
  day numbers with `chrono` doing the calendar arithmetic (`date`), text
  helpers such as ISO-8601 duration reading (`text`), the REST endpoints and
  request bodies (`api`), the saved settings (`config`), the placement of the
  entry form (`layout`), and properties that hold across calls (`laws`).
- `app/` is the program around it: command line, configuration file, HTTP
  requests, the terminal event loop and drawing.
- `tests/` runs the library on concrete values.
