# porquinho

A small interactive vault for API keys. Entries are stored AES-256-GCM
encrypted under a key derived (SHA-512) from a master passphrase and a random
per-vault salt; keys are masked in `/list` and decrypted only by `/show`.

Layout:

- `src/` — the verified library (Verus):
  - `backend.rs` — the trusted calls into `sha2`, `aes-gcm`, `base64` and std;
  - `crypto.rs` — key derivation, encryption to the stored text form, decryption;
  - `vault.rs` — entries, salt, master-key check and unlocking;
  - `paths.rs` — the files under `~/.porquinho`;
  - `cli.rs` — colours and notices;
  - `commands/` — command parsing and what each command does to the entries.
- `app/` — the terminal program: prompts, file reading and writing, JSON.
- `tests/` — tests of the library on concrete values.
