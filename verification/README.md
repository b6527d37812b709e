# backendr

The rules of a multi-tenant admin backend, written in Verus and proved
against their contracts: request validation and normalisation for each
resource, the tenant access check, operation auditing, login rate limits,
permission synchronisation from menus and API routes, token and credential
handling, and the cryptographic helpers they rest on.

Layout:

- `src/` — the verified library. `handlers/` holds one module per resource
  (what a request is checked against, what gets written, which error is
  answered); `middleware/` the authentication, audit and tenant access
  decisions; `handlers/upsert.rs` the store conversation of an update
  (lookup, validation of the chosen path, unique checks, write);
  `crypto.rs`, `jwt.rs`, `auth.rs` and `json.rs` token signing and checking
  and the calls into the hashing, cipher, encoding and serialisation crates,
  each behind a small trusted wrapper whose contract names what the crate
  computes; `text.rs` the string functions that the contracts are stated
  with.
- `tests/` — tests run against the compiled library with the real outside
  crates linked.
- `app/` — the unverified edge: environment loading, the clock and the
  serde form of token claims, the access-key exchange driver, mail
  delivery, process readings.

The HTTP routing, SQL repositories and Redis stores of the service are not
part of this crate; the handlers here take what those layers read and return
what they should write or answer.
