//! `cc-switch` subcommands.
pub mod web;
