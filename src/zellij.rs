//! Handles on the terminal workspace: a session and the writer that types
//! into its panes. The commands themselves are run by the host program.
use vstd::prelude::*;

verus! {

/// Types text into the panes of one workspace session.
pub struct PaneWriter {
    pub session_name: String,
}

impl PaneWriter {
    /// A writer for the session named `session_name`.
    pub fn new(session_name: &str) -> (r: PaneWriter)
        ensures
            r.session_name@ == session_name@,
    {
        PaneWriter { session_name: session_name.to_owned() }
    }
}

/// One workspace session, by name.
pub struct ZellijSession {
    pub name: String,
}

impl ZellijSession {
    /// The session named `name`.
    pub fn new(name: &str) -> (r: ZellijSession)
        ensures
            r.name@ == name@,
    {
        ZellijSession { name: name.to_owned() }
    }
}

} // verus!
