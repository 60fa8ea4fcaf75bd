# hypercyber

Back end of a multi-tenant cyber-security and data-protection service:
accounts and sessions, sign-in through an OpenID Connect provider, tenants
and their members, the data-protection registers of a tenant (processing
register, data-subject requests, breaches) and a technical catalogue
(endpoints, licence keys, software versions, encryption algorithms).

Layout:

- `src/` — the library, verified with Verus. Every rule the service applies
  (who may read or change what, how records are built and patched, how
  listings are filtered and ordered, how session tokens are signed and
  read back (whether a token has expired rests on the clock and is left to
  the token crate), how provider answers are read) is a function with a contract over spec-level models.
  - `access.rs`, `listing.rs` — tenant membership and the listing rules.
  - `auth.rs`, `oidc.rs` — accounts, passwords, session tokens (HS256),
    provider sign-in.
  - `entities.rs`, `rgpd.rs`, `catalogue.rs` — the resources.
  - `failure.rs` — the refusals and the HTTP answer each one gets.
  - `ids.rs`, `clock.rs`, `text.rs`, `storage.rs`, `config.rs` — support.
- `app/` — the HTTP server around the library: routing, database access
  through the ORM, JSON (de)serialisation, calls to the identity provider
  and file storage.
- `tests/` — tests of the library on concrete values.
