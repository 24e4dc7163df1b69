//! Proxy-side request handling.
pub mod providers;
