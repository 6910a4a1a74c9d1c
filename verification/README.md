# nazo_postgres

The decision logic of NazoAuth's PostgreSQL persistence layer, written in
Verus and proved against its contracts.

The storage itself (SQL, connections, transactions) is not part of the
verified library: every repository operation is split into the queries it
runs and the decisions it takes on what the queries return.  The decisions
live in `src/` as functions from plain values to plain values, with
`requires`/`ensures` contracts, and the properties that span several calls
(single use of a TOTP step or a proof nonce, one-time bootstrap claims,
compare-and-set of runtime module state, terminal revocation of controller
keys, round trips of stored encodings and sealed payloads) are stated as
public proof functions.

Layout:

- `src/` — the verified library, one module per repository area
  (`audit_ledger`, `controller_registry`, `conformance_leases`, `mfa`,
  `initial_admin_bootstrap`, `runtime_modules`, `clients`, `grants`,
  `access_requests`, `issuance`, `presentation`, `credential_crypto`,
  `mtls`, `tokens`, `scim`, `pool`) and shared helpers (`text`,
  `encoding`, `digest`, `entropy`, `time`, `error`).  Calls into
  `sha2`, `blake3`, `base64`, `aes-gcm`, `argon2`, `serde_json`, `uuid`,
  `rand` and `chrono` sit behind small trusted wrappers whose contracts
  name what those crates compute.
- `tests/` — executable tests of the library, run against the real
  outside crates.
- `app/` — process-side glue: the shared pool-metrics recorder, the
  conformance-lease revocation retry loop, the
  migration-lock wait loop, and conversions between stored column values
  (timestamps, UUIDs, JSON values) and the library's plain values.

Timestamps are microseconds since the Unix epoch; UUIDs are `u128` values.
