# telepair

Rules of a web terminal collaboration server, verified with Verus.

- `src/` — the verified library: roles and permissions, sessions and
  invites, password login with its lockout, one-time-code registration,
  targets and `${VAR}` substitution, the target registry and its diff,
  recordings and share links, audit rows and the listing queries, the
  terminal environment policy, and the admin command-line decisions.
  Outside crates (sha2, hex, nanoid, argon2, chrono, uuid, serde_json)
  are reached through small trusted wrappers whose contracts are stated
  next to them.
- `tests/` — tests of the library on concrete values.
- `app/` — the `telepair` program: argument parsing, the SQLite store,
  `targets.yaml` loading, pseudo-terminals, and the admin commands.
