# printedin3d

Verified core of the printedin3d web shop backend, written in Verus.

- `src/` — the library, verified by Verus:
  - `role` — account roles and their order (with its laws);
  - `error` — the error type, its HTTP status and response text;
  - `validation` — username and password rules;
  - `token` — random session ids and salts;
  - `password` — Argon2 password hashing and verification;
  - `model` — stored records and request/response messages as plain values;
  - `access` — session, credential and role decisions of the request handlers;
  - `store` — turning database write outcomes into answers;
  - `queue` — the print queue: joining, moving orders, the listing, and a
    model of the queue table with its laws.
- `app/` — the HTTP server (axum, sqlx, cookies, clock) that performs the I/O
  and asks the library for the access, validation, password, session and queue
  decisions. Order totals are computed there, as prices are floating point.
- `tests/` — tests of the library.
