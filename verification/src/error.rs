//! The application-level error shared by the web layer and the CLI.
use vstd::prelude::*;

verus! {

/// A domain-level failure carrying a human-readable message.
#[derive(Debug)]
pub enum AppError {
    Message(String),
}

impl AppError {
    /// The message the error displays.
    pub open spec fn text(&self) -> Seq<char> {
        match self {
            AppError::Message(m) => m@,
        }
    }

    /// The message the error displays.
    pub fn message(&self) -> (r: &str)
        ensures
            r@ == self.text(),
    {
        match self {
            AppError::Message(m) => m.as_str(),
        }
    }
}

} // verus!
