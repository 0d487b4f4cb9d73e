# stellar_k8s

The decision logic of the Stellar-K8s Kubernetes operator, written in Verus
and proved against its contracts.

- `src/` — the verified library: CRD defaults and validation, CVE
  bookkeeping, registry admission and readiness, secret versioning, the
  Horizon→Soroban-RPC migration state machine, the data-pipeline
  partitioning and quality rules (with exact IEEE-754 comparisons on the
  encodings of JSON numbers), preflight and repository health-check
  verdicts.
- `app/` — ordinary Rust around it: Kubernetes and HTTP calls, processes,
  files, logging, the serialisable CRD forms, and the parts that compute
  with floating point.
- `tests/` — tests run against the compiled library.

Calls into `std` that the library makes are declared with contracts in
`src/text.rs` and `src/commands/health_check.rs`; everything else in `src/`
is proved. The clock is read in `app/` and handed to the library.
