# mentem_api

The Mentem API server, split in two:

- `src/` is a Verus-verified library with the server's rules: credential
  validation, Argon2id password hashing, HS256 session tokens, the login,
  registration and lookup decisions of the authentication service, bearer
  token extraction, the mapping between the AI domain and the model
  provider's messages API, error answers, configuration checks and rate
  limits. Calls into `argon2`, `jsonwebtoken`, `uuid` and the clock go
  through a few trusted wrappers whose contracts are documented where they
  stand.
- `app/` is the server around it: reading the environment, the database,
  the HTTP routes and handlers, the blocking-pool and async plumbing, and
  the Anthropic client. It runs the library's login state machine
  (`login_start`, `login_step`) against the user store, the hasher and the
  token service.

Verify with Verus; the tests under `tests/` run the library with the real
outside crates.
