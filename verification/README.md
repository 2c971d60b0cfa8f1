# mm_model

The data model of a team messaging server: users, teams, sessions, scheduled posts, searches and
what belongs to them. The rules of the model (what is valid, what is stored, what others see, when
a post is sent again) are verified with Verus.

- `src/` is the library. Every function states what it returns; what holds across several functions
  is stated as public proof functions beside them.
- `src/calendar.rs`, `src/pattern.rs`, `src/value.rs`, `src/timeutils.rs` and `src/utils.rs` hold
  the calls into `chrono`, `chrono_tz`, `regex` and `serde_json`, each behind a small function whose
  contract says what is relied upon.
- `tests/` runs the library.
- `app/` is ordinary Rust around it: the types with the derives of `serde`, the errors with those of
  `thiserror`, and what is read from the process.
