# gt_server

The game server of GlobalTelco, split in two:

- `src/` is a library verified with Verus. It holds the server's decisions
  and data rules: command validation and rate limits, chat sanitisation,
  per-player visibility of tick updates, the speed vote, joining and
  leaving worlds, the account store, credentials (password hashing, token
  claims, admin keys, reset-token digests), configuration, object-store keys
  and status codes, snapshot compression, tick planning and profiling,
  pagination and the admin and social checks. Every public function has a
  contract; the properties that span several calls are proof functions.
- `app/` is the program around it: the axum router and handlers, the
  WebSocket connection loop, the tick loops, PostgreSQL (sqlx), the R2 object
  store (rust-s3), GitHub OAuth (reqwest) and JSON Web Tokens
  (jsonwebtoken). It decodes requests, asks the library, and performs the
  I/O. The simulation itself comes from the `gt_common` and `gt_simulation`
  workspace crates.

`tests/` exercises the library on concrete values.
