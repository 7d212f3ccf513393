# fluxlock

A validator network whose members carry a post-quantum identity lineage
(Dilithium2 keys, each rotation signed by the previous key), with the rules
that decide access, authentication, identity maturity and validator health.

- `src/` is the verified library (Verus). `crypto.rs` holds the trusted
  boundary to `pqcrypto-dilithium`, `base64` and the standard library;
  everything else is proved against the contracts stated there.
  - `state.rs`: the key store (one Dilithium2 pair per validator id).
  - `engine/identity_validator.rs`: key generation and rotation, link and
    lineage verification, identity validation.
  - `engine/decision.rs`: the consensus decision on a validator.
  - `identity.rs`: identity records and the registry.
  - `network_state.rs`: validators, ticks, rotations, attacks.
  - `routes/`: what each endpoint decides (sign, verify, access, auth).
- `app/` is the HTTP service (axum): I/O, the shared state, the engine loop,
  and the floating-point measures (confidence, trust, drift, continuity),
  which move as the library's decisions say.
- `tests/` exercises the library with the real cryptography.
