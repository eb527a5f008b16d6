//! One session slot: the owner of at most one live child process for one
//! program name, together with the operations of its lifecycle — spawn,
//! terminate, and the half-duplex write-then-read of one command.
//!
//! Besides the process handle, a [`ChildSession`] carries a ghost model of
//! everything that ever happened to its slot: how many processes were
//! spawned, how many were sent the termination signal, and the exact
//! character sequence written to the children's standard input. The
//! well-formedness invariant `spawned == killed + live` states that no child
//! is ever leaked and none is terminated twice.

use vstd::prelude::*;

use crate::framing::{ends_with_only, frame_content, framed_turn, lemma_frame_strips_terminator, lossy_decode};
use crate::proc_io::{read_until_byte, spawn_child, terminate_child, write_line};
use crate::subprocess_control::ProcInfo;
use crate::types::{RouteError, RouteResponse};

verus! {

/// The session slot for one program name: `None` means not started. Created
/// empty at startup, it lives for the whole life of the controller; only a
/// restart or an explicit shutdown takes a live handle out, and both
/// terminate it first.
pub struct ChildSession {
    /// The held process handle; `None` means not started.
    pub proc: Option<subprocess::Popen>,
    /// How many child processes were ever spawned into this slot.
    pub spawned: Ghost<nat>,
    /// How many child processes of this slot were sent the termination
    /// signal.
    pub killed: Ghost<nat>,
    /// Every character ever written to the slot's children on their standard
    /// input, in order.
    pub sent: Ghost<Seq<char>>,
    /// A failed best-effort termination during a restart or shutdown is
    /// recorded here as a warning; it never aborts the operation.
    pub term_warning: Option<String>,
}

impl ChildSession {
    /// Whether the slot holds a process handle.
    pub open spec fn is_alive(&self) -> bool {
        self.proc is Some
    }

    /// How many live child processes the slot accounts for: a slot holds at
    /// most one handle.
    pub open spec fn live_count(&self) -> nat {
        if self.is_alive() {
            1
        } else {
            0
        }
    }

    /// Every process ever spawned into the slot was either terminated or is
    /// the one the slot still holds: no leak, no double termination.
    pub open spec fn wf(&self) -> bool {
        self.spawned@ == self.killed@ + self.live_count()
    }

    /// A fresh, never-started session slot.
    pub fn new() -> (s: ChildSession)
        ensures
            s.wf(),
            !s.is_alive(),
            s.spawned@ == 0,
            s.killed@ == 0,
            s.sent@ == Seq::<char>::empty(),
    {
        ChildSession {
            proc: None,
            spawned: Ghost(0),
            killed: Ghost(0),
            sent: Ghost(Seq::empty()),
            term_warning: None,
        }
    }

    /// Whether the slot currently holds a process handle. The handle may
    /// point at a process that has already exited: exits are detected lazily,
    /// on the next failing write or read.
    pub fn is_live(&self) -> (r: bool)
        ensures
            r == self.is_alive(),
    {
        self.proc.is_some()
    }

    /// Terminates the slot's process, if any, exactly once, and leaves the
    /// slot empty. A failed termination is recorded as a warning, never
    /// surfaced.
    pub fn shutdown(&mut self)
        requires
            old(self).wf(),
        ensures
            final(self).wf(),
            !final(self).is_alive(),
            final(self).spawned@ == old(self).spawned@,
            final(self).killed@ == old(self).killed@ + old(self).live_count(),
            final(self).sent@ == old(self).sent@,
    {
        match self.proc.take() {
            Some(child) => {
                self.killed = Ghost(self.killed@ + 1);
                match terminate_child(child) {
                    Ok(()) => {},
                    Err(warning) => {
                        self.term_warning = Some(warning);
                    },
                }
            },
            None => {},
        }
    }
}

/// What a successful or failed start does to a session slot: on success the
/// slot holds one more spawned, still-live process and the returned banner is
/// one framed turn of its output; on failure the slot stays empty and no
/// process is leaked.
pub open spec fn start_step(
    pre: ChildSession,
    post: ChildSession,
    info: ProcInfo,
    r: RouteResponse,
) -> bool {
    &&& post.sent@ == pre.sent@
    &&& (r matches Ok(banner) ==> {
        &&& post.is_alive()
        &&& post.spawned@ == pre.spawned@ + 1
        &&& post.killed@ == pre.killed@
        &&& exists|b: Seq<u8>| framed_turn(b, info, banner@)
    })
    &&& (r matches Err(e) ==> {
        &&& !post.is_alive()
        &&& (e is SpawnError || e is IoError || e is FramingError)
        &&& ((post.spawned@ == pre.spawned@ && post.killed@ == pre.killed@) || (post.spawned@
            == pre.spawned@ + 1 && post.killed@ == pre.killed@ + 1))
    })
}

/// What one send does to a live session slot: the slot keeps its process;
/// exactly the command and one newline are appended to the slot's input log
/// when the write went through; a successful reply is one framed turn of
/// output.
pub open spec fn send_step(
    pre: ChildSession,
    post: ChildSession,
    info: ProcInfo,
    command: Seq<char>,
    r: RouteResponse,
) -> bool {
    &&& post.is_alive()
    &&& post.spawned@ == pre.spawned@
    &&& post.killed@ == pre.killed@
    &&& (r matches Ok(out) ==> {
        &&& post.sent@ == pre.sent@ + command + seq!['\n']
        &&& exists|b: Seq<u8>| framed_turn(b, info, out@)
    })
    &&& (r matches Err(e) ==> {
        &&& (e is BrokenPipeError || e is IoError || e is FramingError)
        &&& (post.sent@ == pre.sent@ || post.sent@ == pre.sent@ + command + seq!['\n'])
    })
}

/// What a restart does to a session slot: the live process, if there was
/// one, is sent the termination signal exactly once, then the slot is
/// started afresh. A failed restart leaves the slot empty (the fresh
/// process, if one was spawned at all, was terminated again).
pub open spec fn restart_step(
    pre: ChildSession,
    post: ChildSession,
    info: ProcInfo,
    r: RouteResponse,
) -> bool {
    &&& post.sent@ == pre.sent@
    &&& (r matches Ok(banner) ==> {
        &&& post.is_alive()
        &&& post.spawned@ == pre.spawned@ + 1
        &&& post.killed@ == pre.killed@ + pre.live_count()
        &&& exists|b: Seq<u8>| framed_turn(b, info, banner@)
    })
    &&& (r matches Err(e) ==> {
        &&& !post.is_alive()
        &&& (e is SpawnError || e is IoError || e is FramingError)
        &&& ((post.spawned@ == pre.spawned@ && post.killed@ == pre.killed@
            + pre.live_count()) || (post.spawned@ == pre.spawned@ + 1 && post.killed@
            == pre.killed@ + pre.live_count() + 1))
    })
}

/// A successful restart of a live session terminates the one previously live
/// process exactly once and results in exactly one live process: with the
/// accounting invariant, the counter deltas of `restart_step` are process
/// counts — no leak, no double termination.
pub proof fn lemma_restart_exactly_once(
    pre: ChildSession,
    post: ChildSession,
    info: ProcInfo,
    r: RouteResponse,
)
    requires
        pre.wf(),
        post.wf(),
        pre.is_alive(),
        r is Ok,
        restart_step(pre, post, info, r),
    ensures
        post.killed@ == pre.killed@ + 1,
        post.live_count() == 1,
        post.spawned@ == post.killed@ + 1,
{
}

/// Reads and frames one turn of output from a child process: bytes up to and
/// including the terminator byte, decoded lossily, with the trailing prompt
/// region stripped. Whenever the read really ended at the terminator (rather
/// than at the end of the stream), the content handed out never contains the
/// terminator character.
pub fn read_from_proc(sub_proc: &subprocess::Popen, term: &ProcInfo) -> (r: RouteResponse)
    requires
        term.wf(),
    ensures
        r matches Ok(out) ==> exists|b: Seq<u8>|
            framed_turn(b, *term, out@) && (ends_with_only(b, term.term_byte())
                ==> !out@.contains(term.term_char)),
        r matches Err(e) ==> (e is IoError || e is FramingError),
{
    let term_byte: u8 = (term.term_char as u32) as u8;
    let buf = match read_until_byte(sub_proc, term_byte) {
        Ok(b) => b,
        Err(msg) => return Err(RouteError::IoError(msg)),
    };
    let decoded = lossy_decode(&buf);
    match frame_content(&decoded, term.term_len) {
        Ok(out) => {
            proof {
                assert(framed_turn(buf@, *term, out@));
                if ends_with_only(buf@, term.term_byte()) {
                    assert((term.term_byte() as char) == term.term_char);
                    lemma_frame_strips_terminator(
                        decoded@,
                        term.term_len as nat,
                        term.term_char,
                    );
                }
            }
            Ok(out)
        },
        Err(e) => Err(e),
    }
}

/// Starts the program described by `term` into the empty session slot:
/// spawns the executable, consumes its startup banner as one framed turn,
/// and stores the handle. On a spawn failure nothing was created; on a
/// failed banner read the fresh process is terminated again, so that no
/// orphan holds the pipes.
pub fn init(maybe_sp: &mut ChildSession, term: &ProcInfo) -> (r: RouteResponse)
    requires
        !old(maybe_sp).is_alive(),
        old(maybe_sp).wf(),
        term.wf(),
    ensures
        final(maybe_sp).wf(),
        start_step(*old(maybe_sp), *final(maybe_sp), *term, r),
{
    let child = match spawn_child(&term.path) {
        Ok(c) => c,
        Err(msg) => return Err(RouteError::SpawnError(msg)),
    };
    match read_from_proc(&child, term) {
        Ok(banner) => {
            maybe_sp.proc = Some(child);
            maybe_sp.spawned = Ghost(maybe_sp.spawned@ + 1);
            Ok(banner)
        },
        Err(e) => {
            maybe_sp.spawned = Ghost(maybe_sp.spawned@ + 1);
            maybe_sp.killed = Ghost(maybe_sp.killed@ + 1);
            match terminate_child(child) {
                Ok(()) => {},
                Err(warning) => {
                    maybe_sp.term_warning = Some(warning);
                },
            }
            Err(e)
        },
    }
}

/// Restarts the session: the live process, if any, is terminated best-effort
/// (a failure is recorded as a warning, never surfaced and never aborting
/// the restart), then the program is started afresh, exactly as `init`.
pub fn restart(maybe_sp: &mut ChildSession, term: &ProcInfo) -> (r: RouteResponse)
    requires
        old(maybe_sp).wf(),
        term.wf(),
    ensures
        final(maybe_sp).wf(),
        restart_step(*old(maybe_sp), *final(maybe_sp), *term, r),
{
    maybe_sp.shutdown();
    init(maybe_sp, term)
}

/// Sends one command to the live child process: writes the command with a
/// newline appended, then reads and frames exactly one turn of output — a
/// strict half-duplex cycle. A session nobody started rejects the command. A
/// failed write leaves the slot's input log unchanged; a failed read leaves
/// the handle in place (stale until the next restart), as exits are only
/// detected on this failure.
pub fn send_command(command: &String, sub_proc: &mut ChildSession, term: &ProcInfo) -> (r:
    RouteResponse)
    requires
        old(sub_proc).wf(),
        term.wf(),
    ensures
        final(sub_proc).wf(),
        !old(sub_proc).is_alive() ==> ((r matches Err(e) && e is NotInitializedError)
            && *final(sub_proc) == *old(sub_proc)),
        old(sub_proc).is_alive() ==> send_step(
            *old(sub_proc),
            *final(sub_proc),
            *term,
            command@,
            r,
        ),
{
    if !sub_proc.is_live() {
        return Err(RouteError::NotInitializedError);
    }
    match write_line(sub_proc.proc.as_ref().unwrap(), command) {
        Ok(()) => {},
        Err(e) => return Err(e),
    }
    sub_proc.sent = Ghost(sub_proc.sent@ + command@ + seq!['\n']);
    read_from_proc(sub_proc.proc.as_ref().unwrap(), term)
}

/// Commands reach one program in the order their requests acquired its
/// session: when one send extends a session's input log with its command and
/// a second send then extends the result with another, the final log is the
/// first log followed by the two newline-terminated commands, whole and in
/// that order — their bytes never interleave.
pub proof fn lemma_sends_in_order(
    log0: Seq<char>,
    c1: Seq<char>,
    c2: Seq<char>,
    log1: Seq<char>,
    log2: Seq<char>,
)
    requires
        log1 == log0 + c1 + seq!['\n'],
        log2 == log1 + c2 + seq!['\n'],
    ensures
        log2 == log0 + (c1 + seq!['\n']) + (c2 + seq!['\n']),
{
    assert(log2 =~= log0 + (c1 + seq!['\n']) + (c2 + seq!['\n']));
}

} // verus!
