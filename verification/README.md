# f69

Core logic of the f69 feature-flag platform, verified with Verus.

The platform has two HTTP services: an **auth service** (registration, login,
RS256 access tokens, a JWKS document for other services) and a **flag
service** (projects owned by a user and the boolean feature flags of a
project, behind bearer-token authentication).

`src/` is the verified library:

- `config` — typed configuration, defaults, how raw environment values are
  read as booleans, `u64` and ports, and the checks a loaded configuration
  must pass;
- `password` — Argon2 hashing and verification of stored passwords;
- `jwt` — issuing tokens, publishing the signing key as JWKS, checking
  tokens against a JWKS document;
- `auth_api`, `flags` — the decisions of the two services' routes;
- `auth_gate` — authentication of flag-service requests;
- `jwks_cache`, `cors`, `health` — the JWKS cache policy, the CORS origin
  policy, liveness and readiness answers;
- `text`, `json`, `ids` — strings, JSON text and identifiers with exact
  specifications.

Cryptography, hashing, base64, UUID parsing and e-mail checking are done by
outside crates behind trusted items whose contracts are documented next to
them.

`app/` holds the HTTP servers (axum, sea-orm, reqwest, figment, tracing):
`f69 auth` runs the auth service, `f69 flag` the flag service.
