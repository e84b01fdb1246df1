# backend_lab

A verified core for a handful of small Rust back-ends, written in Verus.

* `src/` — the library, every function verified:
  * `chat_rooms`, `chat_lobby`: the chat state machines behind the
    websocket servers (rooms, sessions, history, participants).
  * `todo_backend`, `todo_starter`, `todo_simple`: the todo service's token
    handling, request authorization and answers.
  * `uptime`: the uptime monitor's tokens, sign-in/sign-up, route answers,
    the producer's choice of due monitors, the worker's status detection
    and the notifier's alert mail.
  * `token`, `uuid_text`, `password_hash`, `markdown`, `ping`: the calls
    into `jsonwebtoken`, `uuid`, `bcrypt`, `pulldown-cmark` and `std`, with
    the contracts the rest relies on.
  * `counter`, `course`, `numfmt`, `stream_jobs`, `keyed`, `http_status`:
    small utilities.
* `tests/` — tests of the library on concrete values.
* `app/` — the programs around it: HTTP and websocket servers, database
  and Redis access, the clock and the command line.
