//! A WASM plugin boundary: shared types, the plugin's module table and calls,
//! and the host's checks on what the plugin answers.
pub mod codec;
pub mod handles;
pub mod host;
pub mod outside;
pub mod plugin;
pub mod types;
pub mod values;
pub mod wasm;
