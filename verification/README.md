# backend

Request logic of a chat server (users, rooms, messages, a live channel per
room), verified with Verus.

- `src/` is the library. Each endpoint's decisions are functions from the
  values the server has read (the request, database rows, the token secret,
  the time) to the answer or to what must be written, with contracts:
  `errors` (refusals and their HTTP answers), `json` (decimal and JSON text),
  `middleware::auth` (bearer tokens, JWT issue and check), and
  `handlers::{auth, messages, rooms, ws}`.
- `app/` is the axum server around it: routing, MySQL queries, Redis
  pub/sub, the websocket loop and serde conversions.
- `tests/` runs the library against the real bcrypt, jsonwebtoken and
  serde_json crates.
