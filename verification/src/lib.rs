//! Verified core of the GreyCat language-server integration for Zed.

pub mod command;
pub mod install;
pub mod json;
pub mod label;
pub mod laws;
pub mod platform;
pub mod settings;
pub mod sidecar;
pub mod text;
