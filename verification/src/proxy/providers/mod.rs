//! Provider-specific request rewriting.
pub mod modelhub_codex;
