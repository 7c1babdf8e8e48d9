# trustlink

Verified core of an on-ledger attestation registry.

- `src/types.rs`: attestation records, their status at a given time
  (revocation first, then expiration), and the numeric error codes.
- `src/id.rs`: the deterministic attestation identifier, the first 16 bytes
  of the SHA-256 digest of the XDR encoding of
  `(issuer, subject, claim_type, timestamp)`, computed by the Soroban host.
- `app/`: the contract-facing copies of the types (`contracttype`,
  `contracterror`) and conversions to and from the host's values.
