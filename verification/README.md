# axum_auth

Session authentication for an axum service, as a Verus-verified library
(`src/`) and a thin server around it (`app/`).

- `src/common`: the stored records, JSON responses, session cookies (issuing
  and reading them back from a `Cookie` header), tokens and UUIDs, bcrypt
  password hashing, the clock and the session lifetime.
- `src/handler`: the decisions of the public, registration, login, logout and
  profile routes.
- `src/middleware`: the session check in front of the protected routes.
- `app/`: the axum router, the SQLite queries and the conversion of the
  library's responses into HTTP responses.

Outside crates (bcrypt, chrono, cookie, rand, serde_json, uuid) are called from
`src/` through small trusted wrappers whose contracts are stated next to them.
