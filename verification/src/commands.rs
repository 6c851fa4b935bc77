use vstd::prelude::*;

verus! {

/// Error output from a command handler, carrying a human-readable message
/// and an optional machine-readable code.
#[derive(Debug, Clone)]
pub struct CmdError {
    pub message: String,
    pub code: Option<String>,
}

impl CmdError {
    /// Build an error that carries a machine-readable code alongside the
    /// message.
    pub fn coded(message: String, code: String) -> (r: CmdError)
        ensures
            r.message == message,
            r.code == Some(code),
    {
        CmdError { message, code: Some(code) }
    }
}

} // verus!
