# rodas5p_integrators

Verified decision logic of the RODAS5P integrator research workspace.

`src/` is checked by Verus. It holds the parts of the integrator audits that
decide rather than compute numerically:

- profile, lane, family and method labels and their tables;
- the persistence latch and the prefix-probe policies built on it;
- speculative JVP budget caps, calibration of paired wall-clock protocols and
  the frozen full-E shadow ledger, parity and hard gates;
- the canonical, length-prefixed encoding of an R-JF attempt trace and its
  SHA-256 digest (computed by `sha2`), which provably ignores wall-clock time;
- the attempt-geometry telemetry comparison and its hard-gate summary;
- the homotopy order-policy split, counts, ranking key and promotion gate;
- the bounded Rayon execution context (pools are built by `rayon`).

Floating-point quantities cross into `src/` as IEEE-754 bit patterns, and
their equality is stated over those bits.

`app/` is ordinary Rust around the library: ordered job scheduling on the
local pool, the serde report rows with `f64` fields and their conversion to
the library's records, and the wall-clock calibration loop.

`tests/` exercises the library on concrete values.
