# adi_server

A small HTTP service that records generated values in MySQL, gathers values
from an echo service, and reports which of them came back more than once.

- `src/` is the verified library (Verus): the records (`model`, `schema`),
  the replies (`reply`), what each route answers given what the database and
  the echo service returned (`handler`), the repeated-values report
  (`repeated`), new record identifiers (`ids`), the echo round trip (`echo`)
  and the text helpers (`text`).
- `app/` is the actix-web server: routes, database and HTTP calls, and the
  JSON form of replies.
- `tests/` runs the library on concrete values.
