//! Command handlers beyond the first-wave table.
pub mod proxy_extra;
