# rataria

A terminal recon tracker for penetration tests: engagements, their targets,
and per target the IPs, ASNs and subdomains found, with each subdomain's
status, notes, technologies, URLs and screenshots. Data lives in an
SQLCipher store opened with a master password; scans can be imported
(plain-text lists, a generic JSON format, ratazana scans) and an engagement
can be exported as a Markdown report.

Layout:

- `src/` — the verified library (Verus). The store is modelled as a `Store`
  of rows (`store.rs`); every query in `queries.rs` states what it does to
  that model; `laws.rs` proves what the store keeps across operations
  (foreign keys, unique names, cascading deletes). The import reconciliation
  (`importer.rs`, `generic.rs`, `ratazana.rs`), the report (`export.rs`), the
  help and overview texts, and every key handler of the interface
  (`handle_*.rs`, a function from state and key to state and action) are
  verified against their contracts. Calls into rusqlite, argon2, uuid,
  chrono, dirs and std's file system stand behind small trusted wrappers.
- `tests/` — the test suite, run against the compiled library.
- `app/` — the program: the ratatui/crossterm loop, drawing, reading import
  files with serde, writing reports and showing images.
