//! Bootstrap logic for an editor-hosted language server: where the bundled
//! server is installed, how the process that runs it is started, and which
//! JSON payloads it receives.

pub mod command;
pub mod config;
pub mod install;
pub mod json;
pub mod path;
