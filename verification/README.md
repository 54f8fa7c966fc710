# proxy_manager

The management side of a reverse proxy: a REST API that stores proxy hosts,
upstreams, access lists, users and TLS certificates in PostgreSQL, and obtains
certificates from Let's Encrypt through DNS-01 challenges answered on
Cloudflare.

## Layout

- `src/` is the verified library. It holds what the server
  decides and computes: request validation, pagination, the statuses each
  endpoint answers with, the partial-update rules, how stored rows are put
  together into proxy hosts and access lists, the gates in front of the
  endpoints, configuration defaults, issuing and checking tokens, and the steps of the
  certificate flow (zone candidates, record names and ids, what an ACME order
  or authorization state leads to, and the order of the issuing flow). Calls into `regex`, `ipnet`, `base64`,
  `bcrypt`, `jsonwebtoken` and `instant-acme` go through the trusted items of
  `src/outside.rs`, whose contracts are stated there.
- `app/` is the server around it: environment, database queries (diesel and
  deadpool), HTTP (axum), JSON (serde), the ACME exchange,
  the Cloudflare API calls (reqwest), and the in-memory stores of the
  certificates and proxy hosts being served (the certificate store parses
  certificate and key pairs and encrypts keys at rest with openssl). It hands the library plain values and
  acts on what comes back.
- `tests/` runs the library on concrete values, with the outside crates linked.
