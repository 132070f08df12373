# dna_help

Helpers for the Acorn projects DNA (Holochain, hdk 0.0.100), with their
decision logic verified by Verus.

- `src/` — the verified library:
  - `action_type`, `goal`: the UI enums and their string forms;
  - `hashes`: hashes as UI strings, parsed and printed by holo_hash;
  - `latest`: choosing the latest version of an entry and filtering a
    link walk;
  - `validation`: resolving a validation dependency;
  - `signals`: the capability grant for remote signals.
- `app/` — the hdk side: serde forms, host calls, goal entries (which hold
  floating-point timestamps), and conversions to and from the library.
- `tests/` — tests of the library, run against the real hdk.

`Cargo.toml` pins `rmp` to 0.8.10: none of the crate's code uses it, but
the `rmp-serde` 0.15 that hdk 0.0.100 depends on does not compile against
later `rmp` releases, which removed functions it calls.
