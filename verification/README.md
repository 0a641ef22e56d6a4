# valdraegorn

The core of a multi-tenant ERP back end, written in Verus.

- `src/` is the verified library: e-mail and tenant-slug value objects,
  tenants, users, roles and permissions, Argon2 password hashing, JWT access
  and refresh tokens (a used refresh token is revoked and refused from then
  on; the server keeps the revoked ones in memory), the use cases (register a user, sign in, refresh a
  token, create a tenant, assign a role) as step machines, the mapping of
  errors to HTTP statuses, bearer authentication, storage rows, and the
  workspace dependency graph.
- `app/` is the HTTP server around it (axum, PostgreSQL through sqlx): it
  reads configuration, runs the use cases against the database, and serves
  JSON.
- `tests/` exercises the library on concrete values.

The server reads `DATABASE_URL` and `JWT_SECRET` from the environment
(`SERVER_HOST`, `SERVER_PORT`, `DATABASE_MAX_CONNECTIONS`,
`JWT_ACCESS_TOKEN_EXPIRY_SECONDS` and `JWT_REFRESH_TOKEN_EXPIRY_SECONDS`
have defaults) and applies the migrations found in `migrations/`.
