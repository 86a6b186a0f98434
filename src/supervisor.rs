//! What a finished script reports back to the watcher.
use vstd::prelude::*;

verus! {

/// A warning about a script that did not finish successfully.
#[derive(Clone, Copy, Debug, PartialEq, Eq, Structural)]
pub enum ExitWarning {
    /// The script exited with this non-zero status.
    Status(i32),
    /// The script was terminated by a signal.
    Signal,
}

/// The warning for a finished script, from its exit code (`None` when a
/// signal ended it). A zero exit status warrants none. No outcome of a
/// script changes the table of active connections.
pub fn exit_warning(code: Option<i32>) -> (r: Option<ExitWarning>)
    ensures
        r == match code {
            Some(0) => None,
            Some(c) => Some(ExitWarning::Status(c)),
            None => Some(ExitWarning::Signal),
        },
{
    match code {
        Some(c) => if c == 0 {
            None
        } else {
            Some(ExitWarning::Status(c))
        },
        None => Some(ExitWarning::Signal),
    }
}

} // verus!
