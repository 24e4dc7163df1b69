//! The web layer: token gate, error answers, command routing and the tunnel.
pub mod dispatch;
pub mod error;
pub mod handlers;
pub mod server;
pub mod tunnel;
