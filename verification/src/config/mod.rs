//! Configuration schema, validation and the file-permission rule.
pub mod loader;
pub mod permissions;
pub mod schema;
