//! The module locator, memory reader, and memory patcher: the decision
//! cores of the loops and call sequences that find a module inside a target
//! process, copy its image out, and patch bytes back over it.
//!
//! As with the process locator, the host layer owns the operating-system
//! primitives and drives each machine: it performs the returned instruction
//! and reports the outcome as the next event. The machines make every
//! decision — buffer growth, candidate matching, liveness detection when
//! the target exits mid-wait, error construction, and the page-protection
//! save-and-restore sequence.

use crate::errors::{decimal, error_with_code, DopamineError, ErrorType};
use crate::growth::{grow_or_scan, must_grow, BufferStep};
use crate::paths::{matches_name, name_matches, trim_nuls, trimmed_length};
use vstd::prelude::*;

verus! {

/// Initial slot capacity of the module enumeration buffer.
pub const INITIAL_MODULE_SLOTS: u32 = 128;

/// Number of bytes in one module-handle slot.
pub const HMODULE_BYTES: u32 = 8;

/// Exit status with which the host reports a process as still running.
pub const STILL_ACTIVE: u32 = 259;

/// The page protection allowing execution, reading and writing.
pub const PAGE_EXECUTE_READWRITE: u32 = 64;

pub open spec fn process_closed_message(status: u32) -> Seq<char> {
    "process is no longer active, exit code "@ + decimal(status as nat)
}

pub open spec fn module_info_fail_message(code: u32) -> Seq<char> {
    "module info query fail, GetModuleInformation return "@ + decimal(code as nat)
}

pub open spec fn read_fail_message(code: u32) -> Seq<char> {
    "read error, ReadProcessMemory return "@ + decimal(code as nat)
}

pub open spec fn protect_fail_message(code: u32) -> Seq<char> {
    "security error, VirtualProtectEx return "@ + decimal(code as nat)
}

pub open spec fn write_fail_message(code: u32) -> Seq<char> {
    "write error, WriteProcessMemory return "@ + decimal(code as nat)
}

/// `raw` with its trailing NUL padding removed: the resolved path bytes.
pub fn resolved_path(raw: Vec<u8>) -> (p: Vec<u8>)
    ensures
        p@ == trim_nuls(raw@),
{
    let ghost before = raw@;
    let n = trimmed_length(&raw);
    let mut p = raw;
    p.truncate(n);
    proof {
        assert(before.subrange(0, n as int) =~= before.take(n as int));
    }
    p
}

/// What the module locator is waiting on.
#[derive(Debug, Clone, Copy, PartialEq, Eq, Structural)]
pub enum ModulePhase {
    Enumerating,
    Scanning,
}

/// Outcome of the last instruction, reported by the host layer.
#[derive(Debug)]
pub enum ModuleEvent {
    /// Module enumeration failed; `exit_status` is what a follow-up exit
    /// status query of the target reported, or `None` when that query
    /// itself failed.
    EnumerationFailed { exit_status: Option<u32> },
    /// Module enumeration filled the slot buffer and reported that it
    /// needed `needed_bytes` bytes.
    Enumerated { needed_bytes: u32 },
    /// The probed slot's file name query failed, or its bytes do not
    /// decode as valid text; the slot is skipped without erroring.
    NameUnavailable,
    /// The probed slot's file name query filled `raw` (NUL-padded).
    Named { raw: Vec<u8> },
}

/// What the host layer must do next.
#[derive(Debug)]
pub enum ModuleOp {
    /// Run the module enumeration primitive with `slots` handle slots.
    Enumerate { slots: u32 },
    /// Query the file name of the module in slot `index` of the last pass.
    Probe { index: u32 },
    /// The module in slot `index` matched: return its handle together with
    /// `path`, the trimmed resolved path bytes.
    Finish { index: u32, path: Vec<u8> },
    /// Abort the wait with `error`.
    Fail { error: DopamineError },
}

/// The module locator's state between two host actions.
#[derive(Debug)]
pub struct ModuleWait {
    /// The module file name waited for, as bytes.
    pub target: Vec<u8>,
    /// Current slot capacity of the enumeration buffer.
    pub slots: u32,
    /// Number of valid entries reported by the current pass.
    pub entries: u32,
    /// Slot index currently being probed.
    pub idx: u32,
    pub phase: ModulePhase,
}

impl ModuleWait {
    pub open spec fn wf(self) -> bool {
        &&& 1 <= self.slots
        &&& (self.phase is Scanning ==> self.idx < self.entries)
    }

    pub open spec fn event_fits(self, event: ModuleEvent) -> bool {
        match self.phase {
            ModulePhase::Enumerating => event is EnumerationFailed || event is Enumerated,
            ModulePhase::Scanning => event is NameUnavailable || event is Named,
        }
    }

    /// When `step` may be called; the arithmetic bounds are machine limits
    /// on the unbounded doubling.
    pub open spec fn step_enabled(self, event: ModuleEvent) -> bool {
        &&& self.wf()
        &&& self.event_fits(event)
        &&& (event is Enumerated ==> self.slots * HMODULE_BYTES <= u32::MAX)
        &&& (event matches ModuleEvent::Enumerated { needed_bytes } && must_grow(
            needed_bytes,
            self.slots,
            HMODULE_BYTES,
        ) ==> self.slots <= u32::MAX / 2)
    }
}

/// The scan moves past the current slot: on to the next one, or back to a
/// fresh enumeration pass (same capacity) when the pass is exhausted.
pub open spec fn module_advances(pre: ModuleWait, post: ModuleWait, r: ModuleOp) -> bool {
    &&& post.slots == pre.slots
    &&& post.entries == pre.entries
    &&& if pre.idx + 1 < pre.entries {
        &&& post.idx == pre.idx + 1
        &&& post.phase is Scanning
        &&& r matches ModuleOp::Probe { index } && index == pre.idx + 1
    } else {
        &&& post.idx == 0
        &&& post.phase is Enumerating
        &&& r matches ModuleOp::Enumerate { slots } && slots == pre.slots
    }
}

pub open spec fn module_stays(pre: ModuleWait, post: ModuleWait) -> bool {
    &&& post.slots == pre.slots
    &&& post.entries == pre.entries
    &&& post.idx == pre.idx
    &&& post.phase == pre.phase
}

/// The full transition relation of the module locator.
pub open spec fn module_step_rel(
    pre: ModuleWait,
    event: ModuleEvent,
    post: ModuleWait,
    r: ModuleOp,
) -> bool {
    &&& post.target@ == pre.target@
    &&& match event {
        ModuleEvent::EnumerationFailed { exit_status } => {
            // Unlike the process path, an enumeration failure is first
            // treated as a liveness probe of the target.
            &&& module_stays(pre, post)
            &&& match exit_status {
                Some(status) => {
                    if status != STILL_ACTIVE {
                        r matches ModuleOp::Fail { error } && error.error_type
                            == ErrorType::ProcessClosedError && error.message@
                            == process_closed_message(status)
                    } else {
                        r matches ModuleOp::Enumerate { slots } && slots == pre.slots
                    }
                },
                None => r matches ModuleOp::Enumerate { slots } && slots == pre.slots,
            }
        },
        ModuleEvent::Enumerated { needed_bytes } => {
            if must_grow(needed_bytes, pre.slots, HMODULE_BYTES) {
                &&& post.slots == 2 * pre.slots
                &&& post.phase is Enumerating
                &&& r matches ModuleOp::Enumerate { slots } && slots == 2 * pre.slots
            } else {
                let entry_count = needed_bytes as int / HMODULE_BYTES as int;
                &&& post.slots == pre.slots
                &&& post.entries == entry_count
                &&& post.idx == 0
                &&& if entry_count == 0 {
                    &&& post.phase is Enumerating
                    &&& r matches ModuleOp::Enumerate { slots } && slots == pre.slots
                } else {
                    &&& post.phase is Scanning
                    &&& r matches ModuleOp::Probe { index } && index == 0
                }
            }
        },
        ModuleEvent::NameUnavailable => module_advances(pre, post, r),
        ModuleEvent::Named { raw } => {
            if matches_name(raw@, pre.target@) {
                &&& module_stays(pre, post)
                &&& r matches ModuleOp::Finish { index, path } && index == pre.idx && path@
                    == trim_nuls(raw@)
            } else {
                module_advances(pre, post, r)
            }
        },
    }
}

impl ModuleWait {
    /// Starts a wait for a module named `target` inside the target process;
    /// the host layer must first run the module enumeration.
    pub fn new(target: Vec<u8>) -> (r: (ModuleWait, ModuleOp))
        ensures
            r.0.wf(),
            r.0.target@ == target@,
            r.0.slots == INITIAL_MODULE_SLOTS,
            r.0.phase is Enumerating,
            r.1 matches ModuleOp::Enumerate { slots } && slots == INITIAL_MODULE_SLOTS,
    {
        let machine = ModuleWait {
            target,
            slots: INITIAL_MODULE_SLOTS,
            entries: 0,
            idx: 0,
            phase: ModulePhase::Enumerating,
        };
        (machine, ModuleOp::Enumerate { slots: INITIAL_MODULE_SLOTS })
    }

    /// Advances the machine by one reported event and returns the next
    /// instruction for the host layer.
    pub fn step(&mut self, event: ModuleEvent) -> (r: ModuleOp)
        requires
            old(self).step_enabled(event),
        ensures
            final(self).wf(),
            module_step_rel(*old(self), event, *final(self), r),
    {
        match event {
            ModuleEvent::EnumerationFailed { exit_status } => {
                match exit_status {
                    Some(status) => {
                        if status != STILL_ACTIVE {
                            let error = error_with_code(
                                "process is no longer active, exit code ",
                                status,
                                ErrorType::ProcessClosedError,
                            );
                            ModuleOp::Fail { error }
                        } else {
                            ModuleOp::Enumerate { slots: self.slots }
                        }
                    },
                    None => ModuleOp::Enumerate { slots: self.slots },
                }
            },
            ModuleEvent::Enumerated { needed_bytes } => {
                match grow_or_scan(needed_bytes, self.slots, HMODULE_BYTES) {
                    BufferStep::Grow { slots } => {
                        self.slots = slots;
                        self.phase = ModulePhase::Enumerating;
                        ModuleOp::Enumerate { slots }
                    },
                    BufferStep::Scan { entries } => {
                        self.entries = entries;
                        self.idx = 0;
                        if entries == 0 {
                            self.phase = ModulePhase::Enumerating;
                            ModuleOp::Enumerate { slots: self.slots }
                        } else {
                            self.phase = ModulePhase::Scanning;
                            ModuleOp::Probe { index: 0 }
                        }
                    },
                }
            },
            ModuleEvent::NameUnavailable => self.advance(),
            ModuleEvent::Named { raw } => {
                if name_matches(&raw, &self.target) {
                    let index = self.idx;
                    let path = resolved_path(raw);
                    ModuleOp::Finish { index, path }
                } else {
                    self.advance()
                }
            },
        }
    }

    /// Moves past the current slot.
    fn advance(&mut self) -> (r: ModuleOp)
        requires
            old(self).wf(),
            old(self).phase is Scanning,
        ensures
            final(self).wf(),
            final(self).target@ == old(self).target@,
            module_advances(*old(self), *final(self), r),
    {
        if self.idx + 1 < self.entries {
            self.idx = self.idx + 1;
            ModuleOp::Probe { index: self.idx }
        } else {
            self.idx = 0;
            self.phase = ModulePhase::Enumerating;
            ModuleOp::Enumerate { slots: self.slots }
        }
    }
}

/// A target that exits mid-wait terminates the wait at the very next
/// enumeration failure, with a `ProcessClosedError` carrying the observed
/// exit code — never by looping on and never as a `ReadWriteError`.
pub proof fn lemma_exit_detected(pre: ModuleWait, post: ModuleWait, status: u32, r: ModuleOp)
    requires
        module_step_rel(
            pre,
            ModuleEvent::EnumerationFailed { exit_status: Some(status) },
            post,
            r,
        ),
        status != STILL_ACTIVE,
    ensures
        r matches ModuleOp::Fail { error } && error.error_type == ErrorType::ProcessClosedError
            && error.message@ == process_closed_message(status),
{
}

/// An enumeration failure while the target still runs (or while its status
/// cannot even be queried) is transient: the locator retries with the same
/// capacity instead of failing.
pub proof fn lemma_transient_failure_retries(
    pre: ModuleWait,
    post: ModuleWait,
    exit_status: Option<u32>,
    r: ModuleOp,
)
    requires
        module_step_rel(pre, ModuleEvent::EnumerationFailed { exit_status }, post, r),
        exit_status matches Some(status) ==> status == STILL_ACTIVE,
    ensures
        r matches ModuleOp::Enumerate { slots } && slots == pre.slots,
{
}

/// The module locator fails only with a `ProcessClosedError`: every other
/// failure of a primitive is retried or skipped.
pub proof fn lemma_fail_only_process_closed(
    pre: ModuleWait,
    event: ModuleEvent,
    post: ModuleWait,
    r: ModuleOp,
)
    requires
        module_step_rel(pre, event, post, r),
        r is Fail,
    ensures
        r matches ModuleOp::Fail { error } && error.error_type == ErrorType::ProcessClosedError,
        event matches ModuleEvent::EnumerationFailed { exit_status } && exit_status
            matches Some(status) && status != STILL_ACTIVE,
{
}

/// The locator hands back a module only on an exact final-component match,
/// together with the trimmed resolved path of exactly the probed slot.
pub proof fn lemma_module_finish_only_on_match(
    pre: ModuleWait,
    event: ModuleEvent,
    post: ModuleWait,
    r: ModuleOp,
)
    requires
        module_step_rel(pre, event, post, r),
        r is Finish,
    ensures
        event matches ModuleEvent::Named { raw } && matches_name(raw@, pre.target@) && (r
            matches ModuleOp::Finish { index, path } && index == pre.idx && path@ == trim_nuls(
            raw@,
        )),
{
}

/// A zero-filled buffer of exactly `size` bytes, sized to the reported
/// module image size before the bulk read.
pub fn zero_buffer(size: u32) -> (v: Vec<u8>)
    ensures
        v@.len() == size,
        forall|i: int| 0 <= i < size ==> v@[i] == 0,
{
    let mut v: Vec<u8> = Vec::new();
    let mut i: u32 = 0;
    while i < size
        invariant
            i <= size,
            v@.len() == i,
            forall|j: int| 0 <= j < i ==> v@[j] == 0,
        decreases size - i,
    {
        v.push(0);
        i = i + 1;
    }
    v
}

/// Where the memory reader stands in its two-step sequence.
#[derive(Debug, Clone, Copy, PartialEq, Eq, Structural)]
pub enum DumpPhase {
    Querying,
    Reading,
}

/// The memory reader's state: query the module's base and image size, then
/// read exactly that many bytes out of the target in one bulk transfer.
#[derive(Debug)]
pub struct Dump {
    /// The image size reported by the metadata query, once received.
    pub size: u32,
    pub phase: DumpPhase,
}

/// Outcome of the last instruction, reported by the host layer.
#[derive(Debug)]
pub enum DumpEvent {
    /// The metadata query failed with the given last-error code.
    InfoFailed { code: u32 },
    /// The metadata query reported an image size of `size` bytes.
    Info { size: u32 },
    /// The bulk read failed with the given last-error code.
    ReadFailed { code: u32 },
    /// The bulk read returned, having transferred `bytes_read` bytes (at
    /// most the requested size; possibly fewer).
    ReadDone { bytes_read: usize },
}

/// What the host layer must do next.
#[derive(Debug)]
pub enum DumpOp {
    /// Query the module's base address and image size.
    QueryInfo,
    /// Bulk-read `buffer.len()` bytes from the module's base into `buffer`.
    Read { buffer: Vec<u8> },
    /// Abort with `error`.
    Fail { error: DopamineError },
    /// Return `transferred` together with the filled buffer. A short read
    /// is reported as-is, not treated as an error.
    Done { transferred: u32 },
}

impl Dump {
    pub open spec fn event_fits(self, event: DumpEvent) -> bool {
        match self.phase {
            DumpPhase::Querying => event is InfoFailed || event is Info,
            DumpPhase::Reading => event is ReadFailed || event is ReadDone,
        }
    }

    /// When `step` may be called: the primitive never reports more bytes
    /// transferred than were asked for.
    pub open spec fn step_enabled(self, event: DumpEvent) -> bool {
        &&& self.event_fits(event)
        &&& (event matches DumpEvent::ReadDone { bytes_read } ==> bytes_read <= self.size)
    }
}

/// The full transition relation of the memory reader.
pub open spec fn dump_step_rel(pre: Dump, event: DumpEvent, post: Dump, r: DumpOp) -> bool {
    match event {
        DumpEvent::InfoFailed { code } => {
            &&& post == pre
            &&& r matches DumpOp::Fail { error } && error.error_type == ErrorType::QueryError
                && error.message@ == module_info_fail_message(code)
        },
        DumpEvent::Info { size } => {
            &&& post.size == size
            &&& post.phase is Reading
            &&& r matches DumpOp::Read { buffer } && buffer@.len() == size && (forall|i: int|
                0 <= i < size ==> buffer@[i] == 0)
        },
        DumpEvent::ReadFailed { code } => {
            &&& post == pre
            &&& r matches DumpOp::Fail { error } && error.error_type == ErrorType::ReadWriteError
                && error.message@ == read_fail_message(code)
        },
        DumpEvent::ReadDone { bytes_read } => {
            &&& post == pre
            &&& r matches DumpOp::Done { transferred } && transferred == bytes_read
        },
    }
}

impl Dump {
    /// Starts a dump; the host layer must first query the module metadata.
    pub fn new() -> (r: (Dump, DumpOp))
        ensures
            r.0.phase is Querying,
            r.1 is QueryInfo,
    {
        (Dump { size: 0, phase: DumpPhase::Querying }, DumpOp::QueryInfo)
    }

    /// Advances the reader by one reported event.
    pub fn step(&mut self, event: DumpEvent) -> (r: DumpOp)
        requires
            old(self).step_enabled(event),
        ensures
            dump_step_rel(*old(self), event, *final(self), r),
    {
        match event {
            DumpEvent::InfoFailed { code } => {
                let error = error_with_code(
                    "module info query fail, GetModuleInformation return ",
                    code,
                    ErrorType::QueryError,
                );
                DumpOp::Fail { error }
            },
            DumpEvent::Info { size } => {
                self.size = size;
                self.phase = DumpPhase::Reading;
                let buffer = zero_buffer(size);
                DumpOp::Read { buffer }
            },
            DumpEvent::ReadFailed { code } => {
                let error = error_with_code(
                    "read error, ReadProcessMemory return ",
                    code,
                    ErrorType::ReadWriteError,
                );
                DumpOp::Fail { error }
            },
            DumpEvent::ReadDone { bytes_read } => {
                DumpOp::Done { transferred: bytes_read as u32 }
            },
        }
    }
}

/// Where the memory patcher stands in its protect / write / restore
/// sequence.
#[derive(Debug, Clone, Copy, PartialEq, Eq, Structural)]
pub enum InjectPhase {
    Protecting,
    Writing,
    Restoring,
}

/// The memory patcher's state. The sequence: relax the range's protection
/// to execute+read+write while capturing the previous value, bulk-write the
/// data, then — unless `ignore_security_fix` is set — restore the captured
/// protection, whose own outcome is best-effort and never surfaced.
#[derive(Debug)]
pub struct Inject {
    /// Skip the final restore, leaving the range execute+read+write.
    pub ignore_security_fix: bool,
    /// The previous protection captured by the relaxing change.
    pub saved: u32,
    pub phase: InjectPhase,
}

/// Outcome of the last instruction, reported by the host layer.
#[derive(Debug)]
pub enum InjectEvent {
    /// The protection change failed with the given last-error code;
    /// nothing was written and the range keeps its prior protection.
    ProtectFailed { code: u32 },
    /// The protection change succeeded and reported `previous` as the
    /// protection it replaced.
    Protected { previous: u32 },
    /// The bulk write failed with the given last-error code.
    WriteFailed { code: u32 },
    /// The bulk write succeeded.
    Written,
    /// The best-effort restore was attempted, successfully or not.
    RestoreAttempted { succeeded: bool },
}

/// What the host layer must do next.
#[derive(Debug)]
pub enum InjectOp {
    /// Set the range `[base, base + data.len())` to `protection`, capturing
    /// the previous protection.
    Protect { protection: u32 },
    /// Bulk-write the caller's data over the range.
    Write,
    /// Set the range back to `protection` (best effort).
    Restore { protection: u32 },
    /// Abort with `error`.
    Fail { error: DopamineError },
    /// The injection is complete.
    Done,
}

impl Inject {
    pub open spec fn event_fits(self, event: InjectEvent) -> bool {
        match self.phase {
            InjectPhase::Protecting => event is ProtectFailed || event is Protected,
            InjectPhase::Writing => event is WriteFailed || event is Written,
            InjectPhase::Restoring => event is RestoreAttempted,
        }
    }
}

/// The full transition relation of the memory patcher.
pub open spec fn inject_step_rel(pre: Inject, event: InjectEvent, post: Inject, r: InjectOp) -> bool {
    &&& post.ignore_security_fix == pre.ignore_security_fix
    &&& match event {
        InjectEvent::ProtectFailed { code } => {
            // Nothing has been written; the target keeps its protection.
            &&& post.phase == pre.phase
            &&& post.saved == pre.saved
            &&& r matches InjectOp::Fail { error } && error.error_type
                == ErrorType::ProtectBypassError && error.message@ == protect_fail_message(code)
        },
        InjectEvent::Protected { previous } => {
            &&& post.saved == previous
            &&& post.phase is Writing
            &&& r is Write
        },
        InjectEvent::WriteFailed { code } => {
            // The relaxed protection is deliberately not rolled back here,
            // mirroring the reader-visible behaviour of the sequence.
            &&& post.phase == pre.phase
            &&& post.saved == pre.saved
            &&& r matches InjectOp::Fail { error } && error.error_type
                == ErrorType::ReadWriteError && error.message@ == write_fail_message(code)
        },
        InjectEvent::Written => {
            &&& post.saved == pre.saved
            &&& if pre.ignore_security_fix {
                &&& post.phase == pre.phase
                &&& r is Done
            } else {
                &&& post.phase is Restoring
                &&& r matches InjectOp::Restore { protection } && protection == pre.saved
            }
        },
        InjectEvent::RestoreAttempted { succeeded } => {
            // Best effort: failure never turns the injection into an error.
            &&& post.saved == pre.saved
            &&& post.phase == pre.phase
            &&& r is Done
        },
    }
}

impl Inject {
    /// Starts an injection; the host layer must first relax the range's
    /// protection to execute+read+write.
    pub fn new(ignore_security_fix: bool) -> (r: (Inject, InjectOp))
        ensures
            r.0.ignore_security_fix == ignore_security_fix,
            r.0.phase is Protecting,
            r.1 matches InjectOp::Protect { protection } && protection == PAGE_EXECUTE_READWRITE,
    {
        let machine = Inject { ignore_security_fix, saved: 0, phase: InjectPhase::Protecting };
        (machine, InjectOp::Protect { protection: PAGE_EXECUTE_READWRITE })
    }

    /// Advances the patcher by one reported event.
    pub fn step(&mut self, event: InjectEvent) -> (r: InjectOp)
        requires
            old(self).event_fits(event),
        ensures
            inject_step_rel(*old(self), event, *final(self), r),
    {
        match event {
            InjectEvent::ProtectFailed { code } => {
                let error = error_with_code(
                    "security error, VirtualProtectEx return ",
                    code,
                    ErrorType::ProtectBypassError,
                );
                InjectOp::Fail { error }
            },
            InjectEvent::Protected { previous } => {
                self.saved = previous;
                self.phase = InjectPhase::Writing;
                InjectOp::Write
            },
            InjectEvent::WriteFailed { code } => {
                let error = error_with_code(
                    "write error, WriteProcessMemory return ",
                    code,
                    ErrorType::ReadWriteError,
                );
                InjectOp::Fail { error }
            },
            InjectEvent::Written => {
                if self.ignore_security_fix {
                    InjectOp::Done
                } else {
                    self.phase = InjectPhase::Restoring;
                    InjectOp::Restore { protection: self.saved }
                }
            },
            InjectEvent::RestoreAttempted { succeeded: _ } => InjectOp::Done,
        }
    }
}

/// The patcher's initial state.
pub open spec fn inject_init(ignore_security_fix: bool) -> Inject {
    Inject { ignore_security_fix, saved: 0, phase: InjectPhase::Protecting }
}

/// Round-trip protection: a successful injection without
/// `ignore_security_fix` ends by restoring exactly the protection value the
/// range had before the sequence began — the value the relaxing change
/// reported. The reader issues no protection change at all, so a dump
/// followed by such an injection leaves the range's protection as it was
/// before the dump.
pub proof fn lemma_protection_restored(
    previous: u32,
    s1: Inject,
    r1: InjectOp,
    s2: Inject,
    r2: InjectOp,
)
    requires
        inject_step_rel(inject_init(false), InjectEvent::Protected { previous }, s1, r1),
        inject_step_rel(s1, InjectEvent::Written, s2, r2),
    ensures
        r2 matches InjectOp::Restore { protection } && protection == previous,
{
}

/// With `ignore_security_fix` set, the patcher never instructs a restore
/// (nor any further protection change): the only protection it ever sets is
/// the initial execute+read+write, which therefore remains in force on the
/// range after a successful injection, whatever it was before.
pub proof fn lemma_ignore_leaves_execute_readwrite(
    pre: Inject,
    event: InjectEvent,
    post: Inject,
    r: InjectOp,
)
    requires
        pre.ignore_security_fix,
        inject_step_rel(pre, event, post, r),
    ensures
        !(r is Restore),
        !(r is Protect),
        post.ignore_security_fix,
{
}

} // verus!
