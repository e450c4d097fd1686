//! DevBrowse: configuration schema, extension allowlist and blocker, and
//! fingerprint-override policies.
pub mod config;
pub mod digest;
pub mod extensions;
pub mod fingerprint;
pub mod text;
