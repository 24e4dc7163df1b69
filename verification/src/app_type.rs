//! The managed CLI applications.
use vstd::prelude::*;

verus! {

/// The applications whose provider configuration cc-switch manages.
#[derive(Clone, Copy, Debug, PartialEq, Eq, Hash)]
pub enum AppType {
    Claude,
    Codex,
    Gemini,
    OpenCode,
    Hermes,
    OpenClaw,
}

} // verus!
