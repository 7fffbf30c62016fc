# timetable

A school timetable editor for the terminal, with its logic verified by Verus.

- `src/` is the verified library: periods and lessons and how they are read
  from text (`period`, `subject`, `text`), the grid and its lesson slots
  (`app`), what every key does to the editor (`keys`), the time-range input
  of the settings tab (`time_input`), what the screens show (`screen`), the
  swatch colour (`color`), the table selections, moved by ratatui's
  `TableState` (`selection`), and the properties that span them (`laws`).
- `app/` is the terminal front end: drawing with ratatui, reading keys with
  crossterm, and the JSON save file with serde.
- `tests/` runs the library on concrete timetables and keys.
