//! The process locator: the decision core of the loop that polls the host's
//! process list until a process whose image file name's final path component
//! equals a requested name appears.
//!
//! The host layer owns the loop and the operating-system primitives. It asks
//! the machine what to do next, performs the returned action (enumerate,
//! probe one candidate, finish, or fail), and reports the outcome as the
//! next event. Every decision — buffer growth, truncation, candidate
//! skipping, name matching, handle-closing, and error construction — is made
//! here and verified.

use crate::errors::{decimal, error_with_code, DopamineError, ErrorType};
use crate::growth::{grow_or_scan, must_grow, BufferStep};
use crate::paths::{lemma_prefix_irrelevant, matches_name, name_matches, trim_nuls, SEPARATOR};
use vstd::prelude::*;

verus! {

/// Initial slot capacity of the process enumeration buffer.
pub const INITIAL_PROCESS_SLOTS: u32 = 32;

/// Number of bytes in one process-identifier slot.
pub const PID_BYTES: u32 = 4;

/// Message of the error raised when process enumeration itself fails.
pub open spec fn enum_processes_fail_message(code: u32) -> Seq<char> {
    "process list query fail, EnumProcesses return "@ + decimal(code as nat)
}

/// Message of the error raised when a process handle cannot be closed.
pub open spec fn close_handle_fail_message(code: u32) -> Seq<char> {
    "couldn't close process handle, CloseHandle return "@ + decimal(code as nat)
}

/// What the locator is waiting on: the next enumeration pass, or the probe
/// of one candidate of the current pass.
#[derive(Debug, Clone, Copy, PartialEq, Eq, Structural)]
pub enum ProcessPhase {
    Enumerating,
    Scanning,
}

/// Outcome of the last action, reported by the host layer.
#[derive(Debug)]
pub enum ProcessEvent {
    /// The enumeration primitive failed with the given last-error code.
    EnumerationFailed { code: u32 },
    /// The enumeration primitive filled `pids` (one entry per slot asked
    /// for) and reported that it needed `needed_bytes` bytes.
    Enumerated { needed_bytes: u32, pids: Vec<u32> },
    /// The probed candidate could not be opened; no handle was obtained.
    ProbeUnopened,
    /// The probed candidate was opened but its image name query failed.
    ProbeNameUnknown,
    /// The probed candidate was opened and its image name query filled
    /// `raw` (NUL-padded).
    ProbeName { raw: Vec<u8> },
}

/// What the host layer must do next.
#[derive(Debug)]
pub enum ProcessOp {
    /// Run the enumeration primitive with a buffer of `slots` slots.
    Enumerate { slots: u32 },
    /// Open candidate `pid` and query its image file name.
    Probe { pid: u32 },
    /// The probed candidate matched: return `pid` with its open handle.
    Finish { pid: u32 },
    /// Abort the wait with `error`.
    Fail { error: DopamineError },
}

/// An instruction to the host layer: whether to close the handle of the
/// candidate just probed, then which operation to perform.
#[derive(Debug)]
pub struct ProcessAction {
    pub close_probed: bool,
    pub op: ProcessOp,
}

/// The process locator's state between two host actions.
#[derive(Debug)]
pub struct ProcessWait {
    /// The image file name waited for, as bytes.
    pub target: Vec<u8>,
    /// Current slot capacity of the enumeration buffer.
    pub slots: u32,
    /// The candidate identifiers of the current pass, already truncated.
    pub pids: Vec<u32>,
    /// Index of the candidate currently being probed.
    pub idx: usize,
    pub phase: ProcessPhase,
}

impl ProcessWait {
    pub open spec fn wf(self) -> bool {
        &&& 1 <= self.slots
        &&& (self.phase is Scanning ==> self.idx < self.pids.len())
    }

    /// Whether `event` can answer the action the machine last issued.
    pub open spec fn event_fits(self, event: ProcessEvent) -> bool {
        match self.phase {
            ProcessPhase::Enumerating => event is EnumerationFailed || event is Enumerated,
            ProcessPhase::Scanning => event is ProbeUnopened || event is ProbeNameUnknown
                || event is ProbeName,
        }
    }

    /// When `step` may be called: the event answers the pending action, the
    /// reported buffer has as many slots as were asked for, and — a machine
    /// limit — the byte capacity and its doubling still fit in 32 bits.
    pub open spec fn step_enabled(self, event: ProcessEvent) -> bool {
        &&& self.wf()
        &&& self.event_fits(event)
        &&& match event {
            ProcessEvent::Enumerated { needed_bytes, pids } => {
                &&& pids.len() == self.slots
                &&& self.slots * PID_BYTES <= u32::MAX
                &&& (must_grow(needed_bytes, self.slots, PID_BYTES) ==> self.slots <= u32::MAX
                    / 2)
            },
            _ => true,
        }
    }
}

/// The scan moves past the current candidate: on to the next one of this
/// pass, or back to a fresh enumeration pass (same capacity) when the pass
/// is exhausted.
pub open spec fn advances(pre: ProcessWait, post: ProcessWait, op: ProcessOp) -> bool {
    &&& post.slots == pre.slots
    &&& post.pids@ == pre.pids@
    &&& if pre.idx + 1 < pre.pids.len() {
        &&& post.idx == pre.idx + 1
        &&& post.phase is Scanning
        &&& op matches ProcessOp::Probe { pid } && pid == pre.pids@[pre.idx as int + 1]
    } else {
        &&& post.idx == 0
        &&& post.phase is Enumerating
        &&& op matches ProcessOp::Enumerate { slots } && slots == pre.slots
    }
}

/// The machine does not move and no candidate handle is held.
pub open spec fn stays(pre: ProcessWait, post: ProcessWait) -> bool {
    &&& post.slots == pre.slots
    &&& post.pids@ == pre.pids@
    &&& post.idx == pre.idx
    &&& post.phase == pre.phase
}

/// The full transition relation of the process locator: what the next state
/// and the issued action are for every state and event.
pub open spec fn process_step_rel(
    pre: ProcessWait,
    event: ProcessEvent,
    post: ProcessWait,
    r: ProcessAction,
) -> bool {
    &&& post.target@ == pre.target@
    &&& match event {
        ProcessEvent::EnumerationFailed { code } => {
            // An enumeration failure is surfaced immediately, never used as
            // a liveness signal on this path.
            &&& stays(pre, post)
            &&& !r.close_probed
            &&& r.op matches ProcessOp::Fail { error }
                && error.error_type == ErrorType::ReadWriteError
                && error.message@ == enum_processes_fail_message(code)
        },
        ProcessEvent::Enumerated { needed_bytes, pids } => {
            if must_grow(needed_bytes, pre.slots, PID_BYTES) {
                &&& post.slots == 2 * pre.slots
                &&& post.phase is Enumerating
                &&& post.pids@ == pre.pids@
                &&& !r.close_probed
                &&& r.op matches ProcessOp::Enumerate { slots } && slots == 2 * pre.slots
            } else {
                let entries = needed_bytes as int / PID_BYTES as int;
                &&& post.slots == pre.slots
                &&& post.pids@ == pids@.subrange(0, entries)
                &&& post.idx == 0
                &&& !r.close_probed
                &&& if entries == 0 {
                    &&& post.phase is Enumerating
                    &&& r.op matches ProcessOp::Enumerate { slots } && slots == pre.slots
                } else {
                    &&& post.phase is Scanning
                    &&& r.op matches ProcessOp::Probe { pid } && pid == pids@[0]
                }
            }
        },
        ProcessEvent::ProbeUnopened => {
            // No handle was obtained, so none is closed.
            &&& advances(pre, post, r.op)
            &&& !r.close_probed
        },
        ProcessEvent::ProbeNameUnknown => {
            // The candidate was open but unnamed: close it and move on.
            &&& advances(pre, post, r.op)
            &&& r.close_probed
        },
        ProcessEvent::ProbeName { raw } => {
            if matches_name(raw@, pre.target@) {
                &&& stays(pre, post)
                &&& !r.close_probed
                &&& r.op matches ProcessOp::Finish { pid } && pid == pre.pids@[pre.idx as int]
            } else {
                &&& advances(pre, post, r.op)
                &&& r.close_probed
            }
        },
    }
}

impl ProcessWait {
    /// Starts a wait for a process named `target`, with the fixed initial
    /// buffer capacity; the host layer must first run the enumeration.
    pub fn new(target: Vec<u8>) -> (r: (ProcessWait, ProcessAction))
        ensures
            r.0.wf(),
            r.0.target@ == target@,
            r.0.slots == INITIAL_PROCESS_SLOTS,
            r.0.phase is Enumerating,
            !r.1.close_probed,
            r.1.op matches ProcessOp::Enumerate { slots } && slots == INITIAL_PROCESS_SLOTS,
    {
        let machine = ProcessWait {
            target,
            slots: INITIAL_PROCESS_SLOTS,
            pids: Vec::new(),
            idx: 0,
            phase: ProcessPhase::Enumerating,
        };
        let action = ProcessAction {
            close_probed: false,
            op: ProcessOp::Enumerate { slots: INITIAL_PROCESS_SLOTS },
        };
        (machine, action)
    }

    /// Advances the machine by one reported event and returns the next
    /// instruction for the host layer.
    pub fn step(&mut self, event: ProcessEvent) -> (r: ProcessAction)
        requires
            old(self).step_enabled(event),
        ensures
            final(self).wf(),
            process_step_rel(*old(self), event, *final(self), r),
    {
        match event {
            ProcessEvent::EnumerationFailed { code } => {
                let error = error_with_code(
                    "process list query fail, EnumProcesses return ",
                    code,
                    ErrorType::ReadWriteError,
                );
                ProcessAction { close_probed: false, op: ProcessOp::Fail { error } }
            },
            ProcessEvent::Enumerated { needed_bytes, pids } => {
                match grow_or_scan(needed_bytes, self.slots, PID_BYTES) {
                    BufferStep::Grow { slots } => {
                        self.slots = slots;
                        ProcessAction { close_probed: false, op: ProcessOp::Enumerate { slots } }
                    },
                    BufferStep::Scan { entries } => {
                        let mut pids = pids;
                        pids.truncate(entries as usize);
                        self.pids = pids;
                        self.idx = 0;
                        if entries == 0 {
                            self.phase = ProcessPhase::Enumerating;
                            ProcessAction {
                                close_probed: false,
                                op: ProcessOp::Enumerate { slots: self.slots },
                            }
                        } else {
                            self.phase = ProcessPhase::Scanning;
                            let pid = self.pids[0];
                            ProcessAction { close_probed: false, op: ProcessOp::Probe { pid } }
                        }
                    },
                }
            },
            ProcessEvent::ProbeUnopened => self.advance(false),
            ProcessEvent::ProbeNameUnknown => self.advance(true),
            ProcessEvent::ProbeName { raw } => {
                if name_matches(&raw, &self.target) {
                    let pid = self.pids[self.idx];
                    ProcessAction { close_probed: false, op: ProcessOp::Finish { pid } }
                } else {
                    self.advance(true)
                }
            },
        }
    }

    /// Moves past the current candidate.
    fn advance(&mut self, close: bool) -> (r: ProcessAction)
        requires
            old(self).wf(),
            old(self).phase is Scanning,
        ensures
            final(self).wf(),
            final(self).target@ == old(self).target@,
            advances(*old(self), *final(self), r.op),
            r.close_probed == close,
    {
        if self.idx + 1 < self.pids.len() {
            self.idx = self.idx + 1;
            let pid = self.pids[self.idx];
            ProcessAction { close_probed: close, op: ProcessOp::Probe { pid } }
        } else {
            self.idx = 0;
            self.phase = ProcessPhase::Enumerating;
            ProcessAction { close_probed: close, op: ProcessOp::Enumerate { slots: self.slots } }
        }
    }
}

/// Builds the error reported when the host layer cannot close a process
/// handle; by convention usually safe to ignore.
pub fn close_handle_error(code: u32) -> (r: DopamineError)
    ensures
        r.error_type == ErrorType::ReadWriteError,
        r.message@ == close_handle_fail_message(code),
{
    error_with_code(
        "couldn't close process handle, CloseHandle return ",
        code,
        ErrorType::ReadWriteError,
    )
}

/// The locator never accepts a wrong candidate: a `Finish` instruction
/// arises only from a probed image name whose final path component, after
/// trimming, equals the target exactly — whatever directory prefix the
/// resolved path carries — and it hands back precisely the candidate that
/// was probed.
pub proof fn lemma_finish_only_on_match(
    pre: ProcessWait,
    event: ProcessEvent,
    post: ProcessWait,
    r: ProcessAction,
)
    requires
        process_step_rel(pre, event, post, r),
        r.op is Finish,
    ensures
        event matches ProcessEvent::ProbeName { raw } && matches_name(raw@, pre.target@),
        r.op matches ProcessOp::Finish { pid } && pid == pre.pids@[pre.idx as int],
{
}

/// A name collision differing by path prefix is rejected: a probed path
/// that resolves to some directory prefix, a separator, and a file name
/// other than the target never finishes the wait, whatever the prefix.
pub proof fn lemma_collision_rejected(
    pre: ProcessWait,
    event: ProcessEvent,
    post: ProcessWait,
    r: ProcessAction,
    prefix: Seq<u8>,
    other: Seq<u8>,
)
    requires
        process_step_rel(pre, event, post, r),
        event matches ProcessEvent::ProbeName { raw } && trim_nuls(raw@) == prefix.push(
            SEPARATOR,
        ) + other,
        forall|i: int| 0 <= i < other.len() ==> other[i] != SEPARATOR,
        other != pre.target@,
    ensures
        !(r.op is Finish),
{
    lemma_prefix_irrelevant(prefix, other);
}

/// The locator fails only when enumeration itself fails, and then with a
/// `ReadWriteError` carrying the reported code: probe failures are skipped,
/// never surfaced.
pub proof fn lemma_fail_only_on_enumeration_failure(
    pre: ProcessWait,
    event: ProcessEvent,
    post: ProcessWait,
    r: ProcessAction,
)
    requires
        process_step_rel(pre, event, post, r),
        r.op is Fail,
    ensures
        event matches ProcessEvent::EnumerationFailed { code } && (r.op
            matches ProcessOp::Fail { error } && error.error_type == ErrorType::ReadWriteError
            && error.message@ == enum_processes_fail_message(code)),
{
}

} // verus!
