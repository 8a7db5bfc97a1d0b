# pulpo-retention-v0

A retention executor for an already-authorized evidence deletion. It never
decides retention policy or issues permits: it checks that a presented
deletion authorization binds exactly the evidence it would delete, deletes it
once, spends the permit, and returns a manifest that it does not reconcile.

- `src/` is the verified library (Verus): the canonical binding of an
  authorization and its object hash, the evidence store and permit ledger,
  validation, the dry-run check, the deletion and its manifest, and the laws
  that relate them (`laws.rs`, `binding_laws.rs`).
- `app/` is the HTTP server (axum): JSON wire types, the lock, the clock.
- `tests/` exercises the library on concrete values.
