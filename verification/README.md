# glimpser

The logic of the Glimpser camera and web-capture service, verified with Verus:
signed self-updates, pixel-difference motion detection, and the rules of the
web layer (request policies, stream and template configurations, capture
plans, accounts, pages and static files).

Layout:

- `src/` – the verified library.
  - `update/` – update configuration and records, release selection,
    Ed25519 signatures of binaries, health-check verdicts, the install
    strategy and the update run as a state machine.
  - `vision.rs` – changed-pixel counting, the detector's reference frame,
    frame decoding and scaling, synthetic test frames.
  - `web/` – body limits, roles, rate limiting, session tokens, problem
    documents, configuration decoding and validation, capture plans, the
    capture registry, accounts and signup, import and export, pages and
    static files.
  - `text.rs`, `crypto.rs`, `assoc.rs`, `json`-model helpers shared by the
    modules; `crypto.rs` holds the calls into `hex`, `sha2`, `ed25519-dalek`
    and `rand_core`.
- `tests/` – tests of the library.
- `app/` – the network, file and HTTP work around the library, token
  encoding, and the floating-point figures of motion detection.
