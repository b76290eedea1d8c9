# metered_api_server

An API server that hands out quotes and meters them: every API key, and every
client address that comes without one, has a quota of queries; each served
request takes one off, a used-up quota is refused with status 429, and every
thirty minutes all quotas go back to 10.

- `src/` is the verified library (Verus): the records and instructions
  (`instruction.rs`), the SQL statements and the database task's steps
  (`database.rs`), the quote list (`quotes.rs`), and the decisions of the
  request handlers with their error answers (`services.rs`).
- `app/` is the server around it: actix-web handlers, the PostgreSQL
  connection through sqlx, the channel between them and the reset timer.
- `tests/` runs the library on concrete values.
