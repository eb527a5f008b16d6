//! The trusted boundary to the operating system. Every call into the
//! `subprocess` crate stands here behind a contract; the session logic above
//! it is verified against these contracts and never touches a pipe or a
//! process handle directly.

use vstd::prelude::*;

use crate::types::RouteError;

verus! {

/// `subprocess::Popen` is the handle to one child process. It stays opaque
/// to the rest of the crate, which reads or changes it only through the
/// wrappers below.
#[verifier::external_type_specification]
#[verifier::external_body]
pub struct ExPopen(subprocess::Popen);

/// Spawns the executable at `path` with standard input and standard output
/// redirected as pipes and standard error merged into standard output.
///
/// Relies on `subprocess::Popen::create`: on success the child is running
/// with both pipes open; on failure the `PopenError` is reported as text.
/// Whether the spawn succeeds depends on the machine, so nothing more can be
/// promised of the outcome.
#[verifier::external_body]
pub(crate) fn spawn_child(path: &String) -> (r: Result<subprocess::Popen, String>) {
    let config = subprocess::PopenConfig {
        stdin: subprocess::Redirection::Pipe,
        stdout: subprocess::Redirection::Pipe,
        stderr: subprocess::Redirection::Merge,
        ..Default::default()
    };
    match subprocess::Popen::create(&[path], config) {
        Ok(child) => Ok(child),
        Err(e) => Err(e.to_string()),
    }
}

/// Reads one turn of output: everything up to and including the first
/// occurrence of `term` on the child's standard output, blocking until the
/// terminator appears or the stream ends.
///
/// Relies on the readable pipe in `subprocess::Popen::stdout` and on std's
/// `BufRead::read_until`: bytes are appended to the buffer until the
/// delimiter byte or end of stream is reached, and the delimiter, when
/// found, is the last byte kept. So the returned bytes hold `term` nowhere
/// but in the last position.
#[verifier::external_body]
pub(crate) fn read_until_byte(sub_proc: &subprocess::Popen, term: u8) -> (r: Result<
    Vec<u8>,
    String,
>)
    ensures
        r matches Ok(buf) ==> crate::framing::read_shape(buf@, term),
{
    let out = match sub_proc.stdout.as_ref() {
        Some(f) => f,
        None => return Err("standard output is not piped".to_string()),
    };
    let mut reader = std::io::BufReader::new(out);
    let mut buf: Vec<u8> = Vec::new();
    match std::io::BufRead::read_until(&mut reader, term, &mut buf) {
        Ok(_) => Ok(buf),
        Err(e) => Err(e.to_string()),
    }
}

/// Writes `command` with a newline appended to the child's standard input.
///
/// Relies on the writable pipe in `subprocess::Popen::stdin` and on std's
/// `Write::write_all`; a failure whose kind is `BrokenPipe` is told apart
/// from other I/O failures so that a caller can report an exited process.
#[verifier::external_body]
pub(crate) fn write_line(sub_proc: &subprocess::Popen, command: &String) -> (r: Result<
    (),
    RouteError,
>)
    ensures
        r matches Err(e) ==> (e is BrokenPipeError || e is IoError),
{
    let mut input = match sub_proc.stdin.as_ref() {
        Some(f) => f,
        None => return Err(RouteError::IoError("standard input is not piped".to_string())),
    };
    let data = format!("{}\n", command);
    match std::io::Write::write_all(&mut input, data.as_bytes()) {
        Ok(()) => Ok(()),
        Err(e) if e.kind() == std::io::ErrorKind::BrokenPipe => Err(
            RouteError::BrokenPipeError(e.to_string()),
        ),
        Err(e) => Err(RouteError::IoError(e.to_string())),
    }
}

/// Sends the operating system's termination signal to the child and gives
/// the handle up.
///
/// Relies on `subprocess::Popen::terminate` (the catchable termination
/// signal on Unix-like systems) and on `Popen`'s drop, which closes the
/// child's pipes and reaps the process once it has exited.
#[verifier::external_body]
pub(crate) fn terminate_child(sub_proc: subprocess::Popen) -> (r: Result<(), String>) {
    let mut sub_proc = sub_proc;
    match sub_proc.terminate() {
        Ok(()) => Ok(()),
        Err(e) => Err(e.to_string()),
    }
}

} // verus!
