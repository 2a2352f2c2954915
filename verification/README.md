# sage

The verified core of the Sage wallet's storage: its encrypted keychain and the
logic of its SQLite database.

- `src/keychain` — key data by fingerprint. Secrets are sealed with AES-256-GCM
  under a key that Argon2 derives from the password; BLS keys and BIP-39
  mnemonics are handled by their byte encodings. The contracts state which
  inputs each operation accepts, what it stores, and that a secret sealed under
  a password is what extracting with that password returns.
- `src/database` — the statements the wallet runs, built in sqlx's
  `QueryBuilder` with their exact text and bound arguments stated; the decoding
  of stored columns into wallet values, each decoder stating when it succeeds,
  what it yields, and which error the first unconvertible column gives; the
  checks on search text (asset ids, heights, addresses) and the escaping of
  `LIKE` patterns; the grouping of the transaction history by block height;
  coin balances; and the steps of resolving the puzzle a puzzle hash stands
  for, which the application drives with its reads.
- `src/convert.rs` — conversions of stored integers and byte strings, with
  their round trips.
- `app/` — the SQLite connection that runs the statements and reads the rows,
  the serialized form of the keychain, and the maintenance routine, which
  depends on floating point.
