//! Command-line entry points.
pub mod commands;
