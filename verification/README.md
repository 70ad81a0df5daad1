# grugu

Backend of a couples' communication app: users register and log in with a
JWT, read and edit their own profile, delete it (softly), link with a
partner and report their mood.

- `src/` is the verified library. Each endpoint's decisions are functions
  from what the request and the database returned to what to write and
  what to answer; linking partners is a small state machine driven by the
  server. Passwords go through `bcrypt`, the clock through `chrono`, behind
  trusted wrappers whose contracts are stated in `src/password.rs` and
  `src/session.rs`. `src/laws.rs` proves the properties that span calls, and `src/table.rs`
  states what each SQL statement does to the `users` table and proves the
  properties that span requests (soft delete hides a user, updates and
  deletes are idempotent, partner links stay mutual). Nothing checks this
  model against the SQL that `app/` runs: each spec function names its
  statement, and the correspondence is by reading.
- `app/` is the Axum server around it: routes, SQLite queries through
  `sqlx`, JSON and JWT handling.
- `tests/` runs the library on concrete values.
