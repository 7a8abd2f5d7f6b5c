# ragdoll

The verified core of Ragdoll, a local retrieval-augmented-generation service:
the rules and data handling of the service, each function with a contract that
Verus proves.

## Layout

- `src/` — the library, all of it verified:
  - `auth/` — bearer tokens (claims, signing, verification), permissions and
    their names, the request authentication steps, rate limits, passwords, the
    superadmin account.
  - `filter/` — the filter language of the listing endpoints and its
    compilation to SQL.
  - `api/` — request checks and the planning of the endpoints' queries
    (listings, database viewer, analytics, re-indexing, streamed answers,
    chunk staging).
  - `backup.rs` — backup names, listing order and retention.
  - `crypto.rs` — the key hierarchy and the sealing of stored credentials.
  - `config.rs`, `cli.rs` — configuration from the environment, the commands.
  - `db/` — migration order, error classes, lock retries, the model guard.
  - `generation/` — provider endpoints, client set-up, prompts, the mock
    generator.
  - `json.rs`, `text.rs` — the JSON and text operations the rest builds on.
- `tests/` — tests of the library on concrete values.
- `app/` — the command-line program around the library.

Calls into outside crates (`serde_json`, `jsonwebtoken`, `argon2`,
`chacha20poly1305`, `hkdf`, `base64`, `sha2`, `time`, `http`) go through small
trusted wrappers whose contracts say what each call returns.
