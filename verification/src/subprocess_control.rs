//! The shared registry of program slots: it resolves a program name to its
//! launch description and its session, and classifies every request against
//! the state of the one session the name resolves to.

use vstd::prelude::*;

use crate::session::{restart_step, send_step, start_step, ChildSession};
use crate::types::{RouteError, RouteResponse};

verus! {

/// The per-program immutable launch description: executable path, terminator
/// character, the count of prompt characters beyond the terminator that are
/// stripped with it, and an override-prompt string reserved for prompt
/// substitution (the stripping algorithm does not use it). Loaded once at
/// startup and never mutated.
#[derive(Debug, Clone)]
pub struct ProcInfo {
    pub path: String,
    pub override_prompt: String,
    pub term_char: char,
    pub term_len: usize,
}

impl ProcInfo {
    /// The byte the reader stops at: the terminator character itself.
    pub open spec fn term_byte(&self) -> u8 {
        (self.term_char as u32) as u8
    }

    /// A description the controller can work with: the terminator character
    /// is a single byte, and the prompt region length leaves room in a size
    /// for the terminator itself.
    pub open spec fn wf(&self) -> bool {
        &&& (self.term_char as u32) < 128
        &&& self.term_len < usize::MAX
    }

    /// Checks `wf` at run time, for callers that load descriptions from
    /// outside the crate.
    pub fn is_valid(&self) -> (r: bool)
        ensures
            r == self.wf(),
    {
        (self.term_char as u32) < 128 && self.term_len < usize::MAX
    }
}

/// The catalog handed to the controller at startup: one launch description
/// per program name.
pub type SettingsMap = Vec<(String, ProcInfo)>;

/// Whether `command` is the reserved control command that (re)starts a
/// session instead of being forwarded to the subprocess.
pub fn is_init(command: &String) -> (r: bool)
    ensures
        r == (command@ == "init"@),
{
    let init_cmd: String = "init".to_owned();
    *command == init_cmd
}

/// A catalog the controller accepts: distinct program names, each with a
/// well-formed launch description.
pub open spec fn valid_settings(settings: Seq<(String, ProcInfo)>) -> bool {
    &&& forall|i: int, j: int|
        0 <= i < j < settings.len() ==> (#[trigger] settings[i]).0@ != (#[trigger] settings[j]).0@
    &&& forall|i: int| 0 <= i < settings.len() ==> (#[trigger] settings[i]).1.wf()
}

/// One registry slot: a program name, its launch description, and the
/// session owning the name's at-most-one live child process.
pub struct ProgramSlot {
    pub name: String,
    pub info: ProcInfo,
    pub session: ChildSession,
}

/// The thread-safe registry: one [`ProgramSlot`] per program name, created
/// once at startup from the catalog and never recreated. Exclusive access to
/// the whole registry — `&mut self` here, a lock around it at the serving
/// boundary — serializes every operation against a session for the full
/// write-then-read round trip.
pub struct SubProcessControl {
    slots: Vec<ProgramSlot>,
}

impl SubProcessControl {
    /// Whether the catalog knows the program name.
    pub closed spec fn has_program(&self, name: Seq<char>) -> bool {
        exists|i: int| 0 <= i < self.slots@.len() && (#[trigger] self.slots@[i]).name@ == name
    }

    /// The registry position of a known program name.
    pub closed spec fn index_of(&self, name: Seq<char>) -> int {
        choose|i: int| 0 <= i < self.slots@.len() && (#[trigger] self.slots@[i]).name@ == name
    }

    /// The launch description of a known program name.
    pub closed spec fn info_of(&self, name: Seq<char>) -> ProcInfo {
        self.slots@[self.index_of(name)].info
    }

    /// The session of a known program name.
    pub closed spec fn session_of(&self, name: Seq<char>) -> ChildSession {
        self.slots@[self.index_of(name)].session
    }

    /// Program names are distinct, every description is usable, and every
    /// session accounts for its processes.
    pub closed spec fn wf(&self) -> bool {
        &&& forall|i: int, j: int|
            0 <= i < j < self.slots@.len() ==> (#[trigger] self.slots@[i]).name@ != (
            #[trigger] self.slots@[j]).name@
        &&& forall|i: int|
            0 <= i < self.slots@.len() ==> (#[trigger] self.slots@[i]).info.wf()
                && self.slots@[i].session.wf()
    }

    /// With distinct names, a slot whose name matches is the slot the specs
    /// point at.
    proof fn lemma_index_unique(&self, name: Seq<char>, i: int)
        requires
            self.wf(),
            0 <= i < self.slots@.len(),
            self.slots@[i].name@ == name,
        ensures
            self.has_program(name),
            self.index_of(name) == i,
    {
        assert(self.has_program(name));
        let j = self.index_of(name);
        if i < j {
            assert(self.slots@[i].name@ != self.slots@[j].name@);
        } else if j < i {
            assert(self.slots@[j].name@ != self.slots@[i].name@);
        }
    }

    /// Builds the registry from the catalog: one empty, never-started session
    /// per program name.
    pub fn new(proc_info: SettingsMap) -> (r: SubProcessControl)
        requires
            valid_settings(proc_info@),
        ensures
            r.wf(),
            forall|name: Seq<char>|
                #[trigger] r.has_program(name) <==> exists|i: int|
                    0 <= i < proc_info@.len() && (#[trigger] proc_info@[i]).0@ == name,
            forall|i: int|
                0 <= i < proc_info@.len() ==> {
                    let name = (#[trigger] proc_info@[i]).0@;
                    &&& r.info_of(name) == proc_info@[i].1
                    &&& !r.session_of(name).is_alive()
                    &&& r.session_of(name).spawned@ == 0
                    &&& r.session_of(name).killed@ == 0
                    &&& r.session_of(name).sent@ == Seq::<char>::empty()
                },
    {
        let mut slots: Vec<ProgramSlot> = Vec::new();
        let mut proc_info = proc_info;
        let ghost settings = proc_info@;
        while proc_info.len() > 0
            invariant
                valid_settings(settings),
                proc_info@.len() + slots@.len() == settings.len(),
                proc_info@ == settings.subrange(slots@.len() as int, settings.len() as int),
                forall|k: int|
                    0 <= k < slots@.len() ==> {
                        let s = #[trigger] slots@[k];
                        &&& s.name@ == settings[k].0@
                        &&& s.info == settings[k].1
                        &&& !s.session.is_alive()
                        &&& s.session.wf()
                        &&& s.session.spawned@ == 0
                        &&& s.session.killed@ == 0
                        &&& s.session.sent@ == Seq::<char>::empty()
                    },
            decreases proc_info@.len(),
        {
            let (name, info) = proc_info.remove(0);
            slots.push(ProgramSlot { name, info, session: ChildSession::new() });
        }
        let r = SubProcessControl { slots };
        proof {
            assert forall|k: int| 0 <= k < settings.len() implies r.has_program(
                settings[k].0@,
            ) && r.index_of(settings[k].0@) == k by {
                r.lemma_index_unique(settings[k].0@, k);
            }
            assert forall|name: Seq<char>| r.has_program(name) implies exists|i: int|
                0 <= i < settings.len() && (#[trigger] settings[i]).0@ == name by {
                let j = choose|j: int|
                    0 <= j < r.slots@.len() && (#[trigger] r.slots@[j]).name@ == name;
                assert(settings[j].0@ == name);
            }
        }
        r
    }

    /// A name-preserving change of one slot changes nothing about the
    /// catalog and no session but the changed slot's own.
    proof fn lemma_update_slot(pre: Self, post: Self, idx: int, ns: ProgramSlot)
        requires
            pre.wf(),
            0 <= idx < pre.slots@.len(),
            ns.name@ == pre.slots@[idx].name@,
            ns.info == pre.slots@[idx].info,
            ns.session.wf(),
            post.slots@ == pre.slots@.update(idx, ns),
        ensures
            post.wf(),
            forall|n: Seq<char>| post.has_program(n) == pre.has_program(n),
            forall|n: Seq<char>| #[trigger] pre.has_program(n) ==> post.info_of(n) == pre.info_of(n),
            forall|n: Seq<char>|
                pre.has_program(n) && n != ns.name@ ==> post.session_of(n) == pre.session_of(n),
            post.session_of(ns.name@) == ns.session,
            pre.session_of(ns.name@) == pre.slots@[idx].session,
            pre.info_of(ns.name@) == ns.info,
    {
        let m = pre.slots@.len();
        assert(forall|i: int|
            0 <= i < m ==> (#[trigger] post.slots@[i]).name@ == pre.slots@[i].name@
                && post.slots@[i].info == pre.slots@[i].info);
        assert forall|n: Seq<char>| post.has_program(n) == pre.has_program(n) by {
            if post.has_program(n) {
                let i = choose|i: int| 0 <= i < m && (#[trigger] post.slots@[i]).name@ == n;
                assert(pre.slots@[i].name@ == n);
                assert(pre.has_program(n));
            }
            if pre.has_program(n) {
                let i = choose|i: int| 0 <= i < m && (#[trigger] pre.slots@[i]).name@ == n;
                assert(post.slots@[i].name@ == n);
                assert(post.has_program(n));
            }
        }
        assert forall|n: Seq<char>| #[trigger] pre.has_program(n) implies post.index_of(n)
            == pre.index_of(n) && 0 <= pre.index_of(n) < m && pre.slots@[pre.index_of(n)].name@
            == n by {
            let i = choose|i: int| 0 <= i < m && (#[trigger] pre.slots@[i]).name@ == n;
            pre.lemma_index_unique(n, i);
            post.lemma_index_unique(n, i);
        }
        pre.lemma_index_unique(ns.name@, idx);
        assert forall|n: Seq<char>|
            pre.has_program(n) && n != ns.name@ implies post.session_of(n) == pre.session_of(
            n,
        ) by {
            assert(pre.index_of(n) != idx);
        }
    }

    /// Looks the program name up in the registry.
    fn find_slot(&self, program_name: &String) -> (r: Option<usize>)
        requires
            self.wf(),
        ensures
            r matches Some(i) ==> self.has_program(program_name@) && self.index_of(
                program_name@,
            ) == i as int && i < self.slots@.len(),
            r is None ==> !self.has_program(program_name@),
    {
        let n = self.slots.len();
        let mut k: usize = 0;
        while k < n
            invariant
                self.wf(),
                n == self.slots@.len(),
                k <= n,
                forall|m: int| 0 <= m < k ==> (#[trigger] self.slots@[m]).name@ != program_name@,
            decreases n - k,
        {
            if self.slots[k].name == *program_name {
                proof {
                    self.lemma_index_unique(program_name@, k as int);
                }
                return Some(k);
            }
            k += 1;
        }
        None
    }

    /// Starts the program described by `term` into the empty session slot
    /// and returns its startup banner.
    pub fn init(maybe_sp: &mut ChildSession, term: &ProcInfo) -> (r: RouteResponse)
        requires
            !old(maybe_sp).is_alive(),
            old(maybe_sp).wf(),
            term.wf(),
        ensures
            final(maybe_sp).wf(),
            start_step(*old(maybe_sp), *final(maybe_sp), *term, r),
    {
        crate::session::init(maybe_sp, term)
    }

    /// Sends one command to the live session: one write, one framed read; a
    /// session nobody started rejects the command.
    pub fn send_command(command: &String, sub_proc: &mut ChildSession, term: &ProcInfo) -> (r:
        RouteResponse)
        requires
            old(sub_proc).wf(),
            term.wf(),
        ensures
            final(sub_proc).wf(),
            !old(sub_proc).is_alive() ==> ((r matches Err(e) && e is NotInitializedError)
                && *final(sub_proc) == *old(sub_proc)),
            old(sub_proc).is_alive() ==> send_step(
                *old(sub_proc),
                *final(sub_proc),
                *term,
                command@,
                r,
            ),
    {
        crate::session::send_command(command, sub_proc, term)
    }

    /// Serves one request: resolves the program name, classifies the command
    /// against the session's state, and runs the one operation the
    /// classification picks — all under exclusive access to the registry, so
    /// that commands reach a program in the order their requests got in.
    ///
    /// An unknown program name is refused whatever the controller's state; a
    /// session no command ever started stays empty; and no session but the
    /// named program's own is touched.
    pub fn dispatch(&mut self, program_name: &String, command: &String) -> (r: RouteResponse)
        requires
            old(self).wf(),
        ensures
            final(self).wf(),
            forall|n: Seq<char>| final(self).has_program(n) == old(self).has_program(n),
            forall|n: Seq<char>|
                #[trigger] old(self).has_program(n) ==> final(self).info_of(n) == old(
                    self,
                ).info_of(n),
            forall|n: Seq<char>|
                old(self).has_program(n) && n != program_name@ ==> final(self).session_of(n)
                    == old(self).session_of(n),
            !old(self).has_program(program_name@) ==> ((r matches Err(e)
                && e is UnknownProgramError) && forall|n: Seq<char>|
                #[trigger] old(self).has_program(n) ==> final(self).session_of(n) == old(
                    self,
                ).session_of(n)),
            old(self).has_program(program_name@) ==> dispatch_step(
                old(self).session_of(program_name@),
                final(self).session_of(program_name@),
                old(self).info_of(program_name@),
                command@,
                r,
            ),
    {
        let idx = match self.find_slot(program_name) {
            Some(i) => i,
            None => {
                return Err(RouteError::UnknownProgramError);
            },
        };
        let ghost pre = *self;
        let slot = &mut self.slots[idx];
        let ghost pre_slot = *slot;
        proof {
            assert(pre.slots@[idx as int].info.wf());
        }
        let alive = slot.session.is_live();
        let start_cmd = is_init(command);
        let r: RouteResponse;
        if !alive && !start_cmd {
            r = Err(RouteError::NotInitializedError);
        } else if !alive {
            r = crate::session::init(&mut slot.session, &slot.info);
        } else if start_cmd {
            r = crate::session::restart(&mut slot.session, &slot.info);
        } else {
            r = crate::session::send_command(command, &mut slot.session, &slot.info);
        }
        let ghost post_slot = *slot;
        proof {
            Self::lemma_update_slot(pre, *self, idx as int, post_slot);
        }
        r
    }

    /// Takes the named program's session down: its live process, if any, is
    /// terminated exactly once and the slot is left empty. The catalog keeps
    /// the name, so a later start command revives the slot. Returns whether
    /// the name was known.
    pub fn shutdown(&mut self, program_name: &String) -> (r: bool)
        requires
            old(self).wf(),
        ensures
            final(self).wf(),
            r == old(self).has_program(program_name@),
            forall|n: Seq<char>| final(self).has_program(n) == old(self).has_program(n),
            forall|n: Seq<char>|
                #[trigger] old(self).has_program(n) ==> final(self).info_of(n) == old(
                    self,
                ).info_of(n),
            forall|n: Seq<char>|
                old(self).has_program(n) && n != program_name@ ==> final(self).session_of(n)
                    == old(self).session_of(n),
            old(self).has_program(program_name@) ==> {
                let pre = old(self).session_of(program_name@);
                let post = final(self).session_of(program_name@);
                &&& !post.is_alive()
                &&& post.spawned@ == pre.spawned@
                &&& post.killed@ == pre.killed@ + pre.live_count()
                &&& post.sent@ == pre.sent@
            },
    {
        let idx = match self.find_slot(program_name) {
            Some(i) => i,
            None => {
                return false;
            },
        };
        let ghost pre = *self;
        let slot = &mut self.slots[idx];
        slot.session.shutdown();
        let ghost post_slot = *slot;
        proof {
            Self::lemma_update_slot(pre, *self, idx as int, post_slot);
        }
        true
    }
}

/// The classification a request is served by: which of the four cases the
/// session state and the command select, and what each does to the named
/// program's slot.
pub open spec fn dispatch_step(
    pre: ChildSession,
    post: ChildSession,
    info: ProcInfo,
    command: Seq<char>,
    r: RouteResponse,
) -> bool {
    if !pre.is_alive() && command != "init"@ {
        // Nothing is spawned and nothing changes: the caller is told to start
        // the session first.
        post == pre && (r matches Err(e) && e is NotInitializedError)
    } else if !pre.is_alive() {
        start_step(pre, post, info, r)
    } else if command == "init"@ {
        restart_step(pre, post, info, r)
    } else {
        send_step(pre, post, info, command, r)
    }
}

} // verus!
