# sb_daily_habits

Creates each morning's habit entries in a Notion workspace: it finds today's
Day page, reads the active habits, and creates one Daily Habits entry for every
habit that has none yet today.

- `src/` is the library, verified with Verus: the request bodies, URLs and
  headers sent to Notion, the reading of its replies, the error texts, the
  retry decisions and the choice of the habits that still need an entry (with
  the proof that a second run on the same day creates nothing).
- `app/` is the program around it: reading `config/config.properties`, the
  clock, the HTTP calls, logging and `main`.
- `tests/` runs the library on concrete inputs.
