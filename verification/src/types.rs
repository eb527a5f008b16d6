//! The closed error taxonomy of the session controller and the inbound
//! request payload shape.

use vstd::prelude::*;

verus! {

/// Everything that can go wrong while serving one request. Every error is
/// local to its request; none is fatal to the server and none is retried.
/// The only recovery path for a wedged or exited session is an explicit
/// `"init"` from a subsequent caller.
#[derive(Debug)]
pub enum RouteError {
    /// The program name is not present in the catalog.
    UnknownProgramError,
    /// A command other than the reserved control command was sent to a
    /// program with no live session.
    NotInitializedError,
    /// The operating system failed to create the child process.
    SpawnError(String),
    /// A write to the child's standard input found the pipe closed,
    /// typically because the process exited.
    BrokenPipeError(String),
    /// Some other read or write against the child's pipes failed.
    IoError(String),
    /// One decoded turn of output was shorter than the prompt region it
    /// declares: a misconfigured terminator length or a protocol violation
    /// by the subprocess.
    FramingError,
}

pub type RouteResponse = Result<String, RouteError>;

/// One inbound request payload: a single command string.
pub struct Command {
    pub command: String,
}

} // verus!
