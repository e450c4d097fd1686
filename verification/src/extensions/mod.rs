//! Extension allowlist (Standard mode), Strict-mode blocker, and the
//! install / update / recall controller.
pub mod allowlist;
pub mod blocker;
pub mod controller;
pub mod encoding;
pub mod json;
pub mod version;
