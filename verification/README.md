# devbrowse

Privacy-browser policy core, verified with Verus.

- `src/config` — the configuration schema, its defaults and validation.
- `src/extensions` — the signed extension allowlist (wire schema, hex and
  base64 encodings, version constraints, the four install gates), the
  Strict-mode extension blocker, and the extension controller (registry,
  installs, atomic manifest swaps).
- `src/fingerprint` — the per-surface fingerprint overrides (one module per
  WebIDL surface under `gecko/`), the deterministic farbling streams, and
  the APIs Strict disables.
- `src/digest.rs`, `src/text.rs` — SHA-256 (from `sha2`) and string helpers.
- `app/` — what stays outside verification: the TOML config file on disk,
  owner-only file permissions, serde / `Display` forms, and the
  floating-point readback helpers.
- `tests/` — unit and scenario tests against the compiled library.
