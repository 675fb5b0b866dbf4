//! The evaluation bridge: one snippet invocation at a time, under the
//! configured lock, with failure isolation.
//!
//! Each evaluation walks the phases `Idle -> Compiling -> Linked ->
//! Invoking -> (Completed | Failed) -> Idle`. Before entering `Invoking`
//! the bridge acquires the shared value under the configured transfer
//! scheme — a read lock for a shared borrow, the write lock for a mutable
//! borrow, nothing when no value is exposed — and it releases that lock on
//! leaving `Invoking`, on the normal and on the aborted path alike. The
//! caller holds the real reader-writer primitive and the failure boundary
//! around the compiled entry point; the bridge decides every transition and
//! accounts for each acquisition and release, so that the lock discipline
//! is a proved property rather than a convention.
//!
//! An intercepted abort under a mutable borrow is reported as exactly that:
//! the shared value may have been left inconsistent by the half-finished
//! snippet, and the outcome says so instead of hiding it behind an
//! apparently clean recovery.

use crate::linking::LinkingArgument;
use vstd::prelude::*;

verus! {

/// The phase an evaluation is in.
#[derive(Clone, Copy, PartialEq, Eq, Structural, Debug)]
pub enum EvalPhase {
    /// No evaluation in flight; initial and resting phase.
    Idle,
    /// The submitted snippet is being compiled.
    Compiling,
    /// The compiled snippet is linked and ready to invoke.
    Linked,
    /// The snippet is running; the configured lock is held.
    Invoking,
    /// The snippet returned normally.
    Completed,
    /// The snippet aborted and the abort was intercepted.
    Failed,
}

/// What the caller must acquire on the shared value before invoking.
#[derive(Clone, Copy, PartialEq, Eq, Structural, Debug)]
pub enum LockRequest {
    /// Nothing is exposed, nothing is locked.
    NoLock,
    /// A shared (read) lock: host-side readers may run concurrently.
    ReadLock,
    /// The exclusive (write) lock: all host-side access is blocked.
    WriteLock,
}

/// How one evaluation ended.
#[derive(Clone, Copy, PartialEq, Eq, Structural, Debug)]
pub enum EvalOutcome {
    /// The snippet returned normally.
    Completed,
    /// The snippet aborted and the abort was intercepted. When the flag is
    /// set, the abort happened under an exclusive borrow and the shared
    /// value may have been left in an inconsistent state.
    Aborted { value_may_be_inconsistent: bool },
}

/// The lock a transfer scheme requires while a snippet runs.
pub open spec fn spec_lock_request(mode: LinkingArgument) -> LockRequest {
    match mode {
        LinkingArgument::NoData => LockRequest::NoLock,
        LinkingArgument::BorrowData => LockRequest::ReadLock,
        LinkingArgument::BorrowMutData => LockRequest::WriteLock,
    }
}

/// The bridge around the compiled snippets of one evaluator instance.
///
/// The counters record every acquisition and release of the lock guarding
/// the shared value; well-formedness ties them to the phase, so a leaked or
/// a doubly released lock is unrepresentable in a well-formed bridge.
pub struct EvaluationBridge {
    /// The transfer scheme fixed when the binding was configured.
    pub mode: LinkingArgument,
    /// The phase of the evaluation in flight, or `Idle`.
    pub phase: EvalPhase,
    /// How often the read lock has been acquired.
    pub read_acquires: u64,
    /// How often the read lock has been released.
    pub read_releases: u64,
    /// How often the write lock has been acquired.
    pub write_acquires: u64,
    /// How often the write lock has been released.
    pub write_releases: u64,
}

/// The transitions of the evaluation state machine, exactly as the bridge
/// methods step them.
pub open spec fn spec_step(pre: EvalPhase, post: EvalPhase) -> bool {
    match pre {
        EvalPhase::Idle => post is Compiling,
        EvalPhase::Compiling => post is Linked,
        EvalPhase::Linked => post is Invoking,
        EvalPhase::Invoking => post is Completed || post is Failed,
        EvalPhase::Completed => post is Idle,
        EvalPhase::Failed => post is Idle,
    }
}

/// No lock was acquired or released between two bridge states.
pub open spec fn spec_counters_unchanged(pre: EvaluationBridge, post: EvaluationBridge) -> bool {
    &&& post.read_acquires == pre.read_acquires
    &&& post.read_releases == pre.read_releases
    &&& post.write_acquires == pre.write_acquires
    &&& post.write_releases == pre.write_releases
}

/// What [`EvaluationBridge::submit`] does: leave the resting phase for the
/// compiler, touching no lock.
pub open spec fn spec_submit_step(pre: EvaluationBridge, post: EvaluationBridge) -> bool {
    &&& pre.phase is Idle
    &&& post.phase is Compiling
    &&& post.mode == pre.mode
    &&& spec_counters_unchanged(pre, post)
}

/// What [`EvaluationBridge::compile_finished`] does: record the linked
/// snippet, touching no lock.
pub open spec fn spec_compile_step(pre: EvaluationBridge, post: EvaluationBridge) -> bool {
    &&& pre.phase is Compiling
    &&& post.phase is Linked
    &&& post.mode == pre.mode
    &&& spec_counters_unchanged(pre, post)
}

/// What [`EvaluationBridge::begin_invoke`] does: enter `Invoking`,
/// acquiring the configured lock exactly once and releasing nothing.
pub open spec fn spec_begin_invoke_step(pre: EvaluationBridge, post: EvaluationBridge) -> bool {
    &&& pre.phase is Linked
    &&& post.phase is Invoking
    &&& post.mode == pre.mode
    &&& post.read_acquires == pre.read_acquires + (if pre.mode is BorrowData {
        1int
    } else {
        0int
    })
    &&& post.write_acquires == pre.write_acquires + (if pre.mode is BorrowMutData {
        1int
    } else {
        0int
    })
    &&& post.read_releases == pre.read_releases
    &&& post.write_releases == pre.write_releases
}

/// What [`EvaluationBridge::finish_invoke`] does: leave `Invoking` through
/// `Completed` or `Failed`, releasing the configured lock exactly once and
/// acquiring nothing — the same on both exits.
pub open spec fn spec_finish_step(
    pre: EvaluationBridge,
    post: EvaluationBridge,
    aborted: bool,
) -> bool {
    &&& pre.phase is Invoking
    &&& post.phase == (if aborted {
        EvalPhase::Failed
    } else {
        EvalPhase::Completed
    })
    &&& post.mode == pre.mode
    &&& post.read_releases == pre.read_releases + (if pre.mode is BorrowData {
        1int
    } else {
        0int
    })
    &&& post.write_releases == pre.write_releases + (if pre.mode is BorrowMutData {
        1int
    } else {
        0int
    })
    &&& post.read_acquires == pre.read_acquires
    &&& post.write_acquires == pre.write_acquires
}

/// What [`EvaluationBridge::acknowledge`] does: return to rest after the
/// outcome was reported, touching no lock.
pub open spec fn spec_acknowledge_step(pre: EvaluationBridge, post: EvaluationBridge) -> bool {
    &&& pre.phase is Completed || pre.phase is Failed
    &&& post.phase is Idle
    &&& post.mode == pre.mode
    &&& spec_counters_unchanged(pre, post)
}

impl EvaluationBridge {
    /// The lock accounting matches the phase: a lock is outstanding exactly
    /// while a snippet that needs it is in `Invoking`.
    pub open spec fn wf(&self) -> bool {
        &&& self.read_acquires == self.read_releases + (if self.phase is Invoking
            && self.mode is BorrowData {
            1int
        } else {
            0int
        })
        &&& self.write_acquires == self.write_releases + (if self.phase is Invoking
            && self.mode is BorrowMutData {
            1int
        } else {
            0int
        })
    }

    /// A fresh bridge: idle, nothing ever locked.
    pub fn new(mode: LinkingArgument) -> (r: EvaluationBridge)
        ensures
            r.wf(),
            r.mode == mode,
            r.phase is Idle,
            r.read_acquires == 0,
            r.read_releases == 0,
            r.write_acquires == 0,
            r.write_releases == 0,
    {
        EvaluationBridge {
            mode,
            phase: EvalPhase::Idle,
            read_acquires: 0,
            read_releases: 0,
            write_acquires: 0,
            write_releases: 0,
        }
    }

    /// Accepts the next snippet: the bridge leaves its resting phase and
    /// the snippet goes to the compiler.
    pub fn submit(&mut self)
        requires
            old(self).wf(),
            old(self).phase is Idle,
        ensures
            final (self).wf(),
            spec_submit_step(*old(self), *final (self)),
            spec_step(old(self).phase, final (self).phase),
    {
        self.phase = EvalPhase::Compiling;
    }

    /// Records that the compiler collaborator produced a linked snippet.
    pub fn compile_finished(&mut self)
        requires
            old(self).wf(),
            old(self).phase is Compiling,
        ensures
            final (self).wf(),
            spec_compile_step(*old(self), *final (self)),
            spec_step(old(self).phase, final (self).phase),
    {
        self.phase = EvalPhase::Linked;
    }

    /// Enters `Invoking` and tells the caller which lock to take on the
    /// shared value: the lock of the configured scheme, acquired exactly
    /// once per evaluation.
    pub fn begin_invoke(&mut self) -> (r: LockRequest)
        requires
            old(self).wf(),
            old(self).phase is Linked,
            old(self).read_acquires < u64::MAX,
            old(self).write_acquires < u64::MAX,
        ensures
            final (self).wf(),
            spec_begin_invoke_step(*old(self), *final (self)),
            r == spec_lock_request(old(self).mode),
            spec_step(old(self).phase, final (self).phase),
    {
        self.phase = EvalPhase::Invoking;
        match self.mode {
            LinkingArgument::NoData => LockRequest::NoLock,
            LinkingArgument::BorrowData => {
                self.read_acquires = self.read_acquires + 1;
                LockRequest::ReadLock
            },
            LinkingArgument::BorrowMutData => {
                self.write_acquires = self.write_acquires + 1;
                LockRequest::WriteLock
            },
        }
    }

    /// Leaves `Invoking` once the snippet returned or its abort was
    /// intercepted. The configured lock is released exactly once, on both
    /// paths; an abort under an exclusive borrow is reported with the
    /// warning that the shared value may be inconsistent.
    pub fn finish_invoke(&mut self, aborted: bool) -> (r: EvalOutcome)
        requires
            old(self).wf(),
            old(self).phase is Invoking,
        ensures
            final (self).wf(),
            spec_finish_step(*old(self), *final (self), aborted),
            !aborted ==> r is Completed,
            aborted ==> (r matches EvalOutcome::Aborted { value_may_be_inconsistent } && (
            value_may_be_inconsistent <==> old(self).mode is BorrowMutData)),
            spec_step(old(self).phase, final (self).phase),
    {
        match self.mode {
            LinkingArgument::NoData => {},
            LinkingArgument::BorrowData => {
                self.read_releases = self.read_releases + 1;
            },
            LinkingArgument::BorrowMutData => {
                self.write_releases = self.write_releases + 1;
            },
        }
        if aborted {
            self.phase = EvalPhase::Failed;
            EvalOutcome::Aborted {
                value_may_be_inconsistent: match self.mode {
                    LinkingArgument::BorrowMutData => true,
                    _ => false,
                },
            }
        } else {
            self.phase = EvalPhase::Completed;
            EvalOutcome::Completed
        }
    }

    /// Returns the bridge to its resting phase after the outcome has been
    /// reported; the next snippet may then be submitted, also after a
    /// failure.
    pub fn acknowledge(&mut self)
        requires
            old(self).wf(),
            old(self).phase is Completed || old(self).phase is Failed,
        ensures
            final (self).wf(),
            spec_acknowledge_step(*old(self), *final (self)),
            spec_step(old(self).phase, final (self).phase),
    {
        self.phase = EvalPhase::Idle;
    }
}

/// A well-formed bridge outside `Invoking` holds no lock: every
/// acquisition has been paired with its release.
pub proof fn lemma_no_lock_outstanding_at_rest(b: EvaluationBridge)
    requires
        b.wf(),
        !(b.phase is Invoking),
    ensures
        b.read_acquires == b.read_releases,
        b.write_acquires == b.write_releases,
{
}

/// One whole evaluation, as the bridge steps it: submitted, compiled,
/// invoked, finished normally or by an intercepted abort, acknowledged.
pub open spec fn spec_evaluation_run(
    b0: EvaluationBridge,
    b1: EvaluationBridge,
    b2: EvaluationBridge,
    b3: EvaluationBridge,
    b4: EvaluationBridge,
    b5: EvaluationBridge,
    aborted: bool,
) -> bool {
    &&& spec_submit_step(b0, b1)
    &&& spec_compile_step(b1, b2)
    &&& spec_begin_invoke_step(b2, b3)
    &&& spec_finish_step(b3, b4, aborted)
    &&& spec_acknowledge_step(b4, b5)
}

/// Every evaluation under an exclusive borrow acquires the write lock
/// exactly once and releases it exactly once, whether it completes or
/// aborts: a whole run from rest adds one acquisition and one release,
/// leaves the bridge well-formed and at rest, and touches the read lock
/// not at all.
pub proof fn lemma_exclusive_lock_discipline(
    b0: EvaluationBridge,
    b1: EvaluationBridge,
    b2: EvaluationBridge,
    b3: EvaluationBridge,
    b4: EvaluationBridge,
    b5: EvaluationBridge,
    aborted: bool,
)
    requires
        b0.wf(),
        b0.mode is BorrowMutData,
        spec_evaluation_run(b0, b1, b2, b3, b4, b5, aborted),
    ensures
        b5.wf(),
        b5.phase is Idle,
        b5.mode is BorrowMutData,
        b5.write_acquires == b0.write_acquires + 1,
        b5.write_releases == b0.write_releases + 1,
        b5.read_acquires == b0.read_acquires,
        b5.read_releases == b0.read_releases,
{
}

/// A run of the machine: it starts at rest and every adjacent pair of
/// phases is one transition.
pub open spec fn valid_trace(t: Seq<EvalPhase>) -> bool {
    &&& t.len() > 0
    &&& t[0] is Idle
    &&& forall|i: int| 0 <= i < t.len() - 1 ==> spec_step(#[trigger] t[i], t[i + 1])
}

/// Evaluations are totally ordered: whenever a run is invoking at two
/// points, the earlier invocation has reached `Completed` or `Failed`
/// strictly in between. A second snippet never enters `Invoking` before
/// the first has left it through one of the two exits.
pub proof fn lemma_evaluations_serialized(t: Seq<EvalPhase>, i: int, j: int)
    requires
        valid_trace(t),
        0 <= i < j < t.len(),
        t[i] is Invoking,
        t[j] is Invoking,
    ensures
        exists|k: int| i < k < j && (#[trigger] t[k] is Completed || t[k] is Failed),
{
    assert(spec_step(t[i], t[i + 1]));
    assert(t[i + 1] is Completed || t[i + 1] is Failed);
    assert(i + 1 < j) by {
        if i + 1 == j {
            assert(t[j] is Invoking);
        }
    }
    assert(i < i + 1 < j && (t[i + 1] is Completed || t[i + 1] is Failed));
}

} // verus!
