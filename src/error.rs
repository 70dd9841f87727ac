//! Failures of the workspace commands.
use vstd::prelude::*;

verus! {

/// What can go wrong when driving the terminal workspace.
#[derive(Clone, Debug, PartialEq, Eq)]
pub enum OverlordError {
    /// No session of that name exists.
    SessionNotFound(String),
    /// A session of that name already exists.
    SessionAlreadyExists(String),
    /// A workspace command failed; the text says how.
    ZellijCommandFailed(String),
    /// A ritual file is missing.
    RitualNotFound(String),
    /// A layout file is missing.
    LayoutNotFound(String),
    /// An I/O operation failed; the text says how.
    Io(String),
}

} // verus!
