# postboard

A GraphQL post board (actix-web, juniper, SQLite) whose decisions live in a
library verified with Verus.

- `src/` — the verified library:
  - `db.rs`: the table schema script;
  - `text.rs`: decimal notation and JSON string escaping;
  - `crypto.rs`: the trusted calls into `bcrypt` and `jsonwebtoken`;
  - `error.rs`: the errors and the messages the client sees;
  - `post.rs`, `user.rs`: the rows, the lookups they resolve to, login,
    registration and session tokens;
  - `walk.rs`: the depth-bounded collection of the replies below a post,
    run one query at a time, with its laws;
  - `schema.rs`: what each query and mutation decides.
- `tests/` — tests of the library.
- `app/` — the server: HTTP, the GraphQL objects, and every database query.
