# quiz_srs

A terminal quiz with a spaced-repetition scheduler, written in Verus.

- `src/` is the verified library: the scheduler's rules (`srs`), the quiz
  session (`quiz`), the one-by-one review session (`srs_quiz`), what a key
  press does (`controller`), the texts of the screen (`ui`), decimal text
  (`text`) and the clock reading (`clock`, the one trusted function).
- `app/` holds what the library leaves out: the SQLite store (sqlx), the
  asynchronous sessions that read and write it, drawing with ratatui and
  the key loop with crossterm.
- `tests/` runs the library on concrete values.

Times are nanoseconds since the Unix epoch (UTC), as `i128`, in the library; `app/`
converts them to and from `chrono::NaiveDateTime` at the store.
