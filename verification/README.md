# nitro_ra

Remote-attestation helpers for a Nitro enclave, verified with Verus.

- `src/der.rs` — DER octets: lengths, tag-length-value triples, object
  identifiers (each arc, and the merged first two) and unsigned integers,
  with the laws that a reader gets back what was written.
- `src/cert.rs` — the self-signed ECDSA P-256 certificate that carries an
  attestation payload, its validity period and its generation.
- `src/attestation.rs` — the attestation request and the reading of the
  secure module's answer.
- `src/report.rs` — checking a signed report against its signing
  certificate and a root certificate.
- `src/proxy.rs` — which services a proxy run starts, and the TLS client's
  certificate policy.
- `src/trusted.rs` — every call into outside crates and the system clock,
  each with the contract the library relies on.
- `app/` — the command-line program: device and network I/O, threads and
  printing.
