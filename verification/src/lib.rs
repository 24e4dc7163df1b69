//! The web dashboard of cc-switch: session-token checks, request rewriting
//! for ModelHub Codex providers, tunnel setup decisions and the startup plan.
pub mod app_type;
pub mod cli;
pub mod error;
pub mod json;
pub mod proxy;
pub mod text;
pub mod web;

pub use app_type::AppType;
pub use error::AppError;
