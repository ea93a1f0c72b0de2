//! The privilege-scoped worker: the order of its steps, the report it sends
//! its parent, and how the parent concludes one run.
use vstd::prelude::*;
use crate::capability::{cap_mask, holds_cap, lemma_needed_mask, needed_cap, required_caps, OpKind};
use crate::error::{valid_errno, SyscallError, MAX_ERRNO};

verus! {

/// One step of a worker's life.
#[derive(Clone, Copy, Debug, PartialEq, Eq, Structural)]
pub enum WorkerStep {
    /// Enter the target mount namespace and change root to its root directory.
    EnterNamespace,
    /// Replace the capability set by exactly this set.
    SetCaps(u64),
    /// Apply the confinement profile; it is never lifted.
    ApplyProfile,
    /// Perform the one requested operation.
    Perform,
    /// Drop every capability.
    DropCaps,
    /// Send the report to the parent.
    Report,
    /// Exit.
    Exit,
}

/// What a worker's privilege looks like after some of its steps.
pub struct WorkerState {
    pub in_namespace: bool,
    pub caps: u64,
    pub confined: bool,
    pub exited: bool,
}

/// A freshly forked worker, with the daemon's capability set `caps`.
pub open spec fn forked(caps: u64) -> WorkerState {
    WorkerState { in_namespace: false, caps, confined: false, exited: false }
}

/// The state after one step.
pub open spec fn after_step(s: WorkerState, step: WorkerStep) -> WorkerState {
    match step {
        WorkerStep::EnterNamespace => WorkerState { in_namespace: true, ..s },
        WorkerStep::SetCaps(c) => WorkerState { caps: c, ..s },
        WorkerStep::ApplyProfile => WorkerState { confined: true, ..s },
        WorkerStep::DropCaps => WorkerState { caps: 0, ..s },
        WorkerStep::Exit => WorkerState { exited: true, ..s },
        _ => s,
    }
}

/// The state after a run of steps.
pub open spec fn run(s: WorkerState, steps: Seq<WorkerStep>) -> WorkerState
    decreases steps.len(),
{
    if steps.len() == 0 {
        s
    } else {
        after_step(run(s, steps.drop_last()), steps.last())
    }
}

/// The steps of a worker that performs an operation of kind `k`.
pub open spec fn plan_of(k: OpKind) -> Seq<WorkerStep> {
    seq![
        WorkerStep::EnterNamespace,
        WorkerStep::SetCaps(cap_mask(needed_cap(k))),
        WorkerStep::ApplyProfile,
        WorkerStep::Perform,
        WorkerStep::DropCaps,
        WorkerStep::Report,
        WorkerStep::Exit,
    ]
}

/// The steps a worker takes, in order, to perform an operation of kind `k`.
pub fn worker_plan(k: OpKind) -> (r: Vec<WorkerStep>)
    ensures
        r@ == plan_of(k),
{
    let caps = required_caps(k);
    let r = vec![
        WorkerStep::EnterNamespace,
        WorkerStep::SetCaps(caps),
        WorkerStep::ApplyProfile,
        WorkerStep::Perform,
        WorkerStep::DropCaps,
        WorkerStep::Report,
        WorkerStep::Exit,
    ];
    assert(r@ =~= plan_of(k));
    r
}

/// A worker's plan scopes its privilege: whatever the daemon's own set, the
/// worker has entered the namespace before it narrows its capabilities, runs
/// the operation confined and with exactly the needed capability and no
/// other, holds none right after it, and exits at the end.
pub proof fn lemma_plan_scopes_privilege(k: OpKind, daemon_caps: u64)
    ensures
        plan_of(k)[0] == WorkerStep::EnterNamespace,
        plan_of(k)[3] == WorkerStep::Perform,
        run(forked(daemon_caps), plan_of(k).take(1)).in_namespace,
        run(forked(daemon_caps), plan_of(k).take(3)).in_namespace,
        run(forked(daemon_caps), plan_of(k).take(3)).confined,
        run(forked(daemon_caps), plan_of(k).take(3)).caps == cap_mask(needed_cap(k)),
        holds_cap(run(forked(daemon_caps), plan_of(k).take(3)).caps, needed_cap(k)),
        forall|c: u64| c < 64 && c != needed_cap(k) ==> !holds_cap(run(forked(daemon_caps), plan_of(k).take(3)).caps, c),
        run(forked(daemon_caps), plan_of(k).take(5)).caps == 0,
        run(forked(daemon_caps), plan_of(k)).caps == 0,
        run(forked(daemon_caps), plan_of(k)).exited,
        forall|i: int| 0 <= i < plan_of(k).len() && i != 3 ==> plan_of(k)[i] != WorkerStep::Perform,
{
    let p = plan_of(k);
    let s = forked(daemon_caps);
    assert(p.take(0).len() == 0);
    assert(p.take(1).drop_last() =~= p.take(0));
    assert(p.take(2).drop_last() =~= p.take(1));
    assert(p.take(3).drop_last() =~= p.take(2));
    assert(p.take(4).drop_last() =~= p.take(3));
    assert(p.take(5).drop_last() =~= p.take(4));
    assert(p.take(6).drop_last() =~= p.take(5));
    assert(p.drop_last() =~= p.take(6));
    assert(run(s, p.take(1)).in_namespace);
    assert(run(s, p.take(2)).caps == cap_mask(needed_cap(k)));
    assert(run(s, p.take(3)).confined);
    assert(run(s, p.take(4)) == run(s, p.take(3)));
    assert(run(s, p.take(5)).caps == 0);
    assert(run(s, p.take(6)) == run(s, p.take(5)));
    lemma_needed_mask(k);
}

/// How a worker's report opens for a result value.
pub const TAG_VALUE: u8 = 0;

/// How a worker's report opens for a kernel error code.
pub const TAG_ERRNO: u8 = 1;

/// The length of a worker's report: a tag and eight little-endian bytes.
pub const REPORT_LEN: usize = 9;

/// What the operation in a worker came to.
#[derive(Clone, Copy, Debug, PartialEq, Eq, Structural)]
pub enum Outcome {
    /// It succeeded with this system call return value.
    Value(i64),
    /// It failed with this kernel error code.
    Errno(i32),
}

/// The eight little-endian bytes of `s` from `at` on, as a word.
pub open spec fn le_word(s: Seq<u8>, at: int) -> u64 {
    (s[at] as u64) | ((s[at + 1] as u64) << 8u64) | ((s[at + 2] as u64) << 16u64)
        | ((s[at + 3] as u64) << 24u64) | ((s[at + 4] as u64) << 32u64)
        | ((s[at + 5] as u64) << 40u64) | ((s[at + 6] as u64) << 48u64)
        | ((s[at + 7] as u64) << 56u64)
}

/// The byte of `w` that starts at bit `shift`.
pub open spec fn byte_of(w: u64, shift: u64) -> u8 {
    ((w >> shift) & 0xffu64) as u8
}

/// The report that stands for an outcome.
pub open spec fn report_of(o: Outcome) -> Seq<u8> {
    let (tag, w) = match o {
        Outcome::Value(v) => (TAG_VALUE, v as u64),
        Outcome::Errno(e) => (TAG_ERRNO, e as u64),
    };
    seq![tag, byte_of(w, 0), byte_of(w, 8), byte_of(w, 16), byte_of(w, 24),
        byte_of(w, 32), byte_of(w, 40), byte_of(w, 48), byte_of(w, 56)]
}

/// What a report read from a worker means: a result value, a kernel error
/// code, or, for anything malformed, a fault.
pub open spec fn report_meaning(s: Seq<u8>) -> Result<i64, SyscallError> {
    if s.len() != REPORT_LEN {
        Err(SyscallError::ExecutorFault)
    } else if s[0] == TAG_VALUE {
        Ok(le_word(s, 1) as i64)
    } else if s[0] == TAG_ERRNO && 1 <= le_word(s, 1) <= MAX_ERRNO {
        Err(SyscallError::Kernel(le_word(s, 1) as i32))
    } else {
        Err(SyscallError::ExecutorFault)
    }
}

/// The report a worker sends for an outcome.
pub fn encode_report(o: Outcome) -> (r: Vec<u8>)
    ensures
        r@ == report_of(o),
{
    let (tag, w) = match o {
        Outcome::Value(v) => (TAG_VALUE, v as u64),
        Outcome::Errno(e) => (TAG_ERRNO, e as u64),
    };
    let r = vec![
        tag,
        ((w >> 0u64) & 0xffu64) as u8,
        ((w >> 8u64) & 0xffu64) as u8,
        ((w >> 16u64) & 0xffu64) as u8,
        ((w >> 24u64) & 0xffu64) as u8,
        ((w >> 32u64) & 0xffu64) as u8,
        ((w >> 40u64) & 0xffu64) as u8,
        ((w >> 48u64) & 0xffu64) as u8,
        ((w >> 56u64) & 0xffu64) as u8,
    ];
    assert(r@ =~= report_of(o));
    r
}

/// Reads a worker's report.
pub fn parse_report(s: &Vec<u8>) -> (r: Result<i64, SyscallError>)
    ensures
        r == report_meaning(s@),
{
    if s.len() != REPORT_LEN {
        return Err(SyscallError::ExecutorFault);
    }
    let w: u64 = (s[1] as u64) | ((s[2] as u64) << 8u64) | ((s[3] as u64) << 16u64)
        | ((s[4] as u64) << 24u64) | ((s[5] as u64) << 32u64)
        | ((s[6] as u64) << 40u64) | ((s[7] as u64) << 48u64)
        | ((s[8] as u64) << 56u64);
    assert(w == le_word(s@, 1));
    if s[0] == TAG_VALUE {
        Ok(w as i64)
    } else if s[0] == TAG_ERRNO && 1 <= w && w <= MAX_ERRNO as u64 {
        Err(SyscallError::Kernel(w as i32))
    } else {
        Err(SyscallError::ExecutorFault)
    }
}

proof fn lemma_word_bytes(w: u64)
    ensures
        ((((w & 0xff) as u8) as u64) | ((((w >> 8) & 0xff) as u8) as u64) << 8
            | ((((w >> 16) & 0xff) as u8) as u64) << 16 | ((((w >> 24) & 0xff) as u8) as u64) << 24
            | ((((w >> 32) & 0xff) as u8) as u64) << 32 | ((((w >> 40) & 0xff) as u8) as u64) << 40
            | ((((w >> 48) & 0xff) as u8) as u64) << 48 | ((((w >> 56) & 0xff) as u8) as u64) << 56)
            == w,
{
    assert(((((w & 0xff) as u8) as u64) | ((((w >> 8) & 0xff) as u8) as u64) << 8
            | ((((w >> 16) & 0xff) as u8) as u64) << 16 | ((((w >> 24) & 0xff) as u8) as u64) << 24
            | ((((w >> 32) & 0xff) as u8) as u64) << 32 | ((((w >> 40) & 0xff) as u8) as u64) << 40
            | ((((w >> 48) & 0xff) as u8) as u64) << 48 | ((((w >> 56) & 0xff) as u8) as u64) << 56)
            == w) by (bit_vector);
}

/// A report read back means what was reported: a value comes back as that
/// value, an error code the kernel convention can carry as that code.
pub proof fn lemma_report_round_trip(o: Outcome)
    ensures
        o matches Outcome::Value(v) ==> report_meaning(report_of(o)) == Ok::<i64, SyscallError>(v),
        o matches Outcome::Errno(e) ==> (valid_errno(e) ==> report_meaning(report_of(o))
            == Err::<i64, SyscallError>(SyscallError::Kernel(e))),
{
    let s = report_of(o);
    let w: u64 = match o {
        Outcome::Value(v) => v as u64,
        Outcome::Errno(e) => e as u64,
    };
    lemma_word_bytes(w);
    assert(w >> 0u64 == w) by (bit_vector);
    assert(le_word(s, 1) == w);
    if let Outcome::Value(v) = o {
        assert((v as u64) as i64 == v) by (bit_vector);
    }
    if let Outcome::Errno(e) = o {
        if valid_errno(e) {
            assert(e as u64 as i32 == e);
        }
    }
}

/// How a worker run ended, as the parent observed it.
#[derive(Clone, Debug)]
pub enum WorkerEnd {
    /// It exited with this status after sending this report (empty if none).
    Exited { status: i32, report: Vec<u8> },
    /// A signal ended it.
    Killed,
    /// It did not end within the bound.
    TimedOut,
}

/// What the parent does to the worker after a run; either way it ends reaped.
#[derive(Clone, Copy, Debug, PartialEq, Eq, Structural)]
pub enum Cleanup {
    /// Collect the ended worker.
    Reap,
    /// Kill the worker, then collect it.
    KillAndReap,
}

/// What a worker run comes to.
pub open spec fn end_meaning(e: WorkerEnd) -> Result<i64, SyscallError> {
    match e {
        WorkerEnd::Exited { status, report } => if status == 0 {
            report_meaning(report@)
        } else {
            Err(SyscallError::ExecutorFault)
        },
        _ => Err(SyscallError::ExecutorFault),
    }
}

/// Concludes one worker run: its result for the handler, and what the parent
/// must do so that no worker outlives its call.
pub fn conclude(e: &WorkerEnd) -> (r: (Result<i64, SyscallError>, Cleanup))
    ensures
        r.0 == end_meaning(*e),
        r.1 == (if e is TimedOut { Cleanup::KillAndReap } else { Cleanup::Reap }),
        e is TimedOut ==> r.0 == Err::<i64, SyscallError>(SyscallError::ExecutorFault),
        !(e is Exited) ==> r.0 == Err::<i64, SyscallError>(SyscallError::ExecutorFault),
{
    match e {
        WorkerEnd::Exited { status, report } => {
            if *status == 0 {
                (parse_report(report), Cleanup::Reap)
            } else {
                (Err(SyscallError::ExecutorFault), Cleanup::Reap)
            }
        },
        WorkerEnd::Killed => (Err(SyscallError::ExecutorFault), Cleanup::Reap),
        WorkerEnd::TimedOut => (Err(SyscallError::ExecutorFault), Cleanup::KillAndReap),
    }
}

} // verus!
