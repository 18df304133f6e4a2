//! The termination coordinator: the shared flags through which a host
//! requests cancellation of a worker and the worker (or the delayed forced
//! fallback) applies it.
//!
//! `signal` records that termination has been requested; `terminated` records
//! that the engine abort has actually been applied, or that the worker is
//! already known to be gone. The central guarantee is that the engine-abort
//! capability — a non-idempotent, hardware-level operation — is invoked at
//! most once over a worker's lifetime, however many termination requests race
//! with the cooperative path, the forced fallback, and natural completion.
//!
//! Concurrency is modeled by traces: every atomic operation on the real
//! shared flags is one [`CoordinatorOp`], and an interleaving of threads is a
//! sequence of such operations. The lemmas at the end of this module quantify
//! over all traces.

use vstd::prelude::*;

verus! {

/// The shared state of the termination coordinator.
#[derive(Debug, Copy, Clone, PartialEq, Eq, Structural)]
pub struct TerminationState {
    /// Termination has been requested (set at most once meaningfully;
    /// repeated sets are no-ops).
    pub signal: bool,
    /// The engine abort has been applied, or the worker is already known to
    /// be gone. Transitions false to true at most once and never reverts.
    pub terminated: bool,
    /// A waker of the currently polling task is registered, so a termination
    /// request can interrupt a suspended poll immediately.
    pub waker_registered: bool,
}

/// What a termination request asks its caller to do: wake the registered
/// waker, and schedule the delayed forced abort. Both happen only on the
/// first effective request.
#[derive(Debug, Copy, Clone, PartialEq, Eq, Structural)]
pub struct TerminateRequestActions {
    /// Wake the polling task now, so a suspended poll observes the signal
    /// without waiting for new engine work.
    pub wake_worker: bool,
    /// Schedule the delayed forced abort that runs [`TerminationState::forced_abort`]
    /// after the grace period.
    pub schedule_forced_abort: bool,
}

/// What the cooperative check decided.
#[derive(Debug, Copy, Clone, PartialEq, Eq, Structural)]
pub struct ApplyOutcome {
    /// The worker is terminated or being terminated.
    pub terminated_now: bool,
    /// This call won the swap on `terminated`: the caller must invoke the
    /// engine-abort capability, exactly this once.
    pub invoke_abort: bool,
}

/// One atomic operation on the shared termination flags. An execution of the
/// system, however its threads interleave, is a sequence of these.
#[derive(Debug, Copy, Clone, PartialEq, Eq, Structural)]
pub enum CoordinatorOp {
    /// A host-side handle requests termination ([`TerminationState::request_terminate`]).
    RequestTerminate,
    /// The polling thread runs the cooperative check ([`TerminationState::apply_if_needed`]).
    ApplyIfNeeded,
    /// The delayed forced fallback fires ([`TerminationState::forced_abort`]).
    ForcedAbort,
    /// The worker itself terminates unconditionally ([`TerminationState::worker_terminate`]).
    WorkerTerminate,
    /// The worker found the control channel closed while posting an event and
    /// records the worker as already gone ([`TerminationState::note_channel_closed`]).
    ChannelClosedObserved,
    /// The polling thread registers its waker ([`TerminationState::register_waker`]).
    RegisterWaker,
}

/// Whether performing `op` in state `s` invokes the engine-abort capability.
pub open spec fn op_aborts(s: TerminationState, op: CoordinatorOp) -> bool {
    match op {
        CoordinatorOp::RequestTerminate => false,
        CoordinatorOp::ApplyIfNeeded => s.signal && !s.terminated,
        CoordinatorOp::ForcedAbort => !s.terminated,
        CoordinatorOp::WorkerTerminate => !s.terminated,
        CoordinatorOp::ChannelClosedObserved => false,
        CoordinatorOp::RegisterWaker => false,
    }
}

/// The state after performing `op` in state `s`.
pub open spec fn op_step(s: TerminationState, op: CoordinatorOp) -> TerminationState {
    match op {
        CoordinatorOp::RequestTerminate => (TerminationState {
            signal: true,
            terminated: s.terminated,
            waker_registered: if !s.signal && !s.terminated {
                false
            } else {
                s.waker_registered
            },
        }),
        CoordinatorOp::ApplyIfNeeded => if s.signal && !s.terminated {
            TerminationState { signal: s.signal, terminated: true, waker_registered: false }
        } else {
            s
        },
        CoordinatorOp::ForcedAbort => (TerminationState {
            signal: s.signal,
            terminated: true,
            waker_registered: s.waker_registered,
        }),
        CoordinatorOp::WorkerTerminate => (TerminationState {
            signal: s.signal,
            terminated: true,
            waker_registered: false,
        }),
        CoordinatorOp::ChannelClosedObserved => (TerminationState {
            signal: s.signal,
            terminated: true,
            waker_registered: s.waker_registered,
        }),
        CoordinatorOp::RegisterWaker => (TerminationState {
            signal: s.signal,
            terminated: s.terminated,
            waker_registered: true,
        }),
    }
}

/// The state after performing a whole trace of operations.
pub open spec fn run_ops(s: TerminationState, ops: Seq<CoordinatorOp>) -> TerminationState
    decreases ops.len(),
{
    if ops.len() == 0 {
        s
    } else {
        run_ops(op_step(s, ops[0]), ops.drop_first())
    }
}

/// How many times a trace of operations invokes the engine-abort capability.
pub open spec fn abort_count(s: TerminationState, ops: Seq<CoordinatorOp>) -> nat
    decreases ops.len(),
{
    if ops.len() == 0 {
        0nat
    } else {
        (if op_aborts(s, ops[0]) {
            1nat
        } else {
            0nat
        }) + abort_count(op_step(s, ops[0]), ops.drop_first())
    }
}

impl TerminationState {
    /// The coordinator's state when a handle pair is created: nothing
    /// requested, nothing applied.
    pub open spec fn spec_init() -> TerminationState {
        TerminationState { signal: false, terminated: false, waker_registered: false }
    }

    /// Fresh coordinator state.
    pub fn new() -> (s: TerminationState)
        ensures
            s == TerminationState::spec_init(),
    {
        TerminationState { signal: false, terminated: false, waker_registered: false }
    }

    /// Pure read of the `terminated` flag.
    pub fn is_terminated(&self) -> (r: bool)
        ensures
            r == self.terminated,
    {
        self.terminated
    }

    /// A host-side request for termination: sets `signal` (idempotent on
    /// repeat calls) and, on the first effective request only, asks the
    /// caller to wake the polling task and to schedule the delayed forced
    /// abort. Never invokes the abort capability itself, and cannot fail.
    pub fn request_terminate(&mut self) -> (r: TerminateRequestActions)
        ensures
            *final(self) == op_step(*old(self), CoordinatorOp::RequestTerminate),
            r.wake_worker == (!old(self).signal && !old(self).terminated),
            r.schedule_forced_abort == r.wake_worker,
    {
        let first_effective = !self.signal && !self.terminated;
        self.signal = true;
        if first_effective {
            self.waker_registered = false;
        }
        TerminateRequestActions {
            wake_worker: first_effective,
            schedule_forced_abort: first_effective,
        }
    }

    /// The cooperative check, run only by the thread currently polling: if
    /// already terminated, reports so; else, if termination was requested,
    /// swaps `terminated` false to true, and the caller invokes the abort
    /// capability exactly when this call won that swap.
    pub fn apply_if_needed(&mut self) -> (r: ApplyOutcome)
        ensures
            *final(self) == op_step(*old(self), CoordinatorOp::ApplyIfNeeded),
            r.terminated_now == (old(self).signal || old(self).terminated),
            r.invoke_abort == op_aborts(*old(self), CoordinatorOp::ApplyIfNeeded),
    {
        if self.terminated {
            ApplyOutcome { terminated_now: true, invoke_abort: false }
        } else if self.signal {
            self.terminated = true;
            self.waker_registered = false;
            ApplyOutcome { terminated_now: true, invoke_abort: true }
        } else {
            ApplyOutcome { terminated_now: false, invoke_abort: false }
        }
    }

    /// The delayed forced fallback: after the grace period it swaps
    /// `terminated` false to true, and the caller invokes the abort
    /// capability exactly when this call won that swap. This shares its
    /// single synchronization point — the swap — with the cooperative path.
    pub fn forced_abort(&mut self) -> (invoke_abort: bool)
        ensures
            *final(self) == op_step(*old(self), CoordinatorOp::ForcedAbort),
            invoke_abort == op_aborts(*old(self), CoordinatorOp::ForcedAbort),
    {
        let won = !self.terminated;
        self.terminated = true;
        won
    }

    /// The worker-side unconditional terminate: wakes the polling task and
    /// swaps `terminated` false to true; the caller invokes the abort
    /// capability exactly when this call won the swap.
    pub fn worker_terminate(&mut self) -> (invoke_abort: bool)
        ensures
            *final(self) == op_step(*old(self), CoordinatorOp::WorkerTerminate),
            invoke_abort == op_aborts(*old(self), CoordinatorOp::WorkerTerminate),
    {
        let won = !self.terminated;
        self.terminated = true;
        self.waker_registered = false;
        won
    }

    /// The producer found the control channel closed: the host has already
    /// concluded the worker is gone, so record `terminated` without invoking
    /// the abort capability.
    pub fn note_channel_closed(&mut self)
        ensures
            *final(self) == op_step(*old(self), CoordinatorOp::ChannelClosedObserved),
    {
        self.terminated = true;
    }

    /// The polling thread registers its waker before suspending, so a later
    /// termination request can wake this exact task.
    pub fn register_waker(&mut self)
        ensures
            *final(self) == op_step(*old(self), CoordinatorOp::RegisterWaker),
    {
        self.waker_registered = true;
    }
}

/// Once `terminated` is set it never reverts, whatever operations follow.
pub proof fn lemma_terminated_monotone(s: TerminationState, ops: Seq<CoordinatorOp>)
    requires
        s.terminated,
    ensures
        run_ops(s, ops).terminated,
    decreases ops.len(),
{
    if ops.len() > 0 {
        lemma_terminated_monotone(op_step(s, ops[0]), ops.drop_first());
    }
}

/// Once `signal` is set it never reverts, whatever operations follow.
pub proof fn lemma_signal_monotone(s: TerminationState, ops: Seq<CoordinatorOp>)
    requires
        s.signal,
    ensures
        run_ops(s, ops).signal,
    decreases ops.len(),
{
    if ops.len() > 0 {
        lemma_signal_monotone(op_step(s, ops[0]), ops.drop_first());
    }
}

/// A trace starting from a terminated state never invokes the abort
/// capability again.
pub proof fn lemma_no_abort_after_terminated(s: TerminationState, ops: Seq<CoordinatorOp>)
    requires
        s.terminated,
    ensures
        abort_count(s, ops) == 0,
    decreases ops.len(),
{
    if ops.len() > 0 {
        lemma_no_abort_after_terminated(op_step(s, ops[0]), ops.drop_first());
    }
}

/// Running a concatenated trace is running the two parts in turn.
pub proof fn lemma_run_ops_concat(s: TerminationState, a: Seq<CoordinatorOp>, b: Seq<
    CoordinatorOp,
>)
    ensures
        run_ops(s, a + b) == run_ops(run_ops(s, a), b),
    decreases a.len(),
{
    if a.len() == 0 {
        assert(a + b =~= b);
    } else {
        assert((a + b).drop_first() =~= a.drop_first() + b);
        lemma_run_ops_concat(op_step(s, a[0]), a.drop_first(), b);
    }
}

/// Over any trace from any state, the abort capability is invoked at most
/// once — and not at all if the state is already terminated.
pub proof fn lemma_abort_count_bound(s: TerminationState, ops: Seq<CoordinatorOp>)
    ensures
        abort_count(s, ops) <= (if s.terminated {
            0nat
        } else {
            1nat
        }),
    decreases ops.len(),
{
    if s.terminated {
        lemma_no_abort_after_terminated(s, ops);
    } else if ops.len() > 0 {
        if op_aborts(s, ops[0]) {
            lemma_no_abort_after_terminated(op_step(s, ops[0]), ops.drop_first());
        } else {
            lemma_abort_count_bound(op_step(s, ops[0]), ops.drop_first());
        }
    }
}

/// In a trace that never observes a closed channel, reaching `terminated`
/// takes exactly one abort invocation: whichever of the cooperative check,
/// the forced fallback, or the worker-side terminate wins the swap.
pub proof fn lemma_abort_exactly_once_reaching_terminated(
    s: TerminationState,
    ops: Seq<CoordinatorOp>,
)
    requires
        !s.terminated,
        run_ops(s, ops).terminated,
        forall|i: int| 0 <= i < ops.len() ==> !(#[trigger] ops[i] is ChannelClosedObserved),
    ensures
        abort_count(s, ops) == 1,
    decreases ops.len(),
{
    if ops.len() > 0 {
        let t = op_step(s, ops[0]);
        assert(forall|i: int|
            0 <= i < ops.drop_first().len() ==> !(#[trigger] ops.drop_first()[i]
                is ChannelClosedObserved));
        if op_aborts(s, ops[0]) {
            lemma_no_abort_after_terminated(t, ops.drop_first());
        } else {
            assert(!t.terminated);
            lemma_abort_exactly_once_reaching_terminated(t, ops.drop_first());
        }
    }
}

/// The termination flag flips false to true at most once: over any trace
/// from a fresh coordinator, once some prefix reports `terminated`, every
/// longer prefix does too.
pub proof fn lemma_terminated_flips_at_most_once(ops: Seq<CoordinatorOp>, i: int, j: int)
    requires
        0 <= i <= j <= ops.len(),
        run_ops(TerminationState::spec_init(), ops.take(i)).terminated,
    ensures
        run_ops(TerminationState::spec_init(), ops.take(j)).terminated,
{
    assert(ops.take(j) =~= ops.take(i) + ops.subrange(i, j));
    lemma_run_ops_concat(TerminationState::spec_init(), ops.take(i), ops.subrange(i, j));
    lemma_terminated_monotone(
        run_ops(TerminationState::spec_init(), ops.take(i)),
        ops.subrange(i, j),
    );
}

/// However many termination requests are issued, from however many threads,
/// and however they interleave with the cooperative check, the forced
/// fallback, the worker's own terminate and the channel-closed observation:
/// the engine-abort capability is invoked at most once over the worker's
/// lifetime.
pub proof fn lemma_abort_invoked_at_most_once(ops: Seq<CoordinatorOp>)
    ensures
        abort_count(TerminationState::spec_init(), ops) <= 1,
{
    lemma_abort_count_bound(TerminationState::spec_init(), ops);
}

/// When a worker's lifetime ends in `terminated` without ever observing a
/// closed channel, the abort capability was invoked exactly once, whichever
/// of the racing paths won.
pub proof fn lemma_abort_invoked_exactly_once(ops: Seq<CoordinatorOp>)
    requires
        run_ops(TerminationState::spec_init(), ops).terminated,
        forall|i: int| 0 <= i < ops.len() ==> !(#[trigger] ops[i] is ChannelClosedObserved),
    ensures
        abort_count(TerminationState::spec_init(), ops) == 1,
{
    lemma_abort_exactly_once_reaching_terminated(TerminationState::spec_init(), ops);
}

/// Requesting termination of a worker that is already recorded as gone —
/// for instance because the control channel was found closed — succeeds,
/// schedules nothing, and no abort is ever invoked afterwards.
pub proof fn lemma_terminate_after_worker_gone(s: TerminationState, ops: Seq<CoordinatorOp>)
    requires
        s.terminated,
    ensures
        abort_count(s, seq![CoordinatorOp::RequestTerminate] + ops) == 0,
        !(!s.signal && !s.terminated),
{
    let all = seq![CoordinatorOp::RequestTerminate] + ops;
    assert(all[0] == CoordinatorOp::RequestTerminate);
    assert(all.drop_first() =~= ops);
    lemma_no_abort_after_terminated(op_step(s, CoordinatorOp::RequestTerminate), ops);
}

/// A trace whose every operation keeps `signal` set and which contains the
/// cooperative check, the forced fallback or the worker-side terminate ends
/// in `terminated`.
pub proof fn lemma_ops_reach_terminated(s: TerminationState, ops: Seq<CoordinatorOp>)
    requires
        s.signal,
        exists|i: int|
            0 <= i < ops.len() && (#[trigger] ops[i] is ForcedAbort || ops[i] is WorkerTerminate
                || ops[i] is ApplyIfNeeded),
    ensures
        run_ops(s, ops).terminated,
    decreases ops.len(),
{
    let k = choose|i: int|
        0 <= i < ops.len() && (#[trigger] ops[i] is ForcedAbort || ops[i] is WorkerTerminate
            || ops[i] is ApplyIfNeeded);
    let t = op_step(s, ops[0]);
    if k == 0 {
        assert(t.terminated);
        lemma_terminated_monotone(t, ops.drop_first());
    } else {
        assert(t.signal);
        assert(ops.drop_first()[k - 1] == ops[k]);
        lemma_ops_reach_terminated(t, ops.drop_first());
    }
}

/// Concurrent termination requests from two independently cloned host
/// handles: both return without blocking, only the first effective request
/// wakes the worker and schedules the forced fallback, and — provided some
/// path (cooperative, forced, or worker-side) later applies termination and
/// the channel-closed shortcut never intervenes — the abort capability is
/// invoked exactly once.
pub proof fn lemma_concurrent_terminate_requests(tail: Seq<CoordinatorOp>)
    requires
        forall|i: int| 0 <= i < tail.len() ==> !(#[trigger] tail[i] is ChannelClosedObserved),
        exists|i: int|
            0 <= i < tail.len() && (#[trigger] tail[i] is ForcedAbort || tail[i] is WorkerTerminate
                || tail[i] is ApplyIfNeeded),
    ensures
        !op_step(TerminationState::spec_init(), CoordinatorOp::RequestTerminate).terminated,
        op_step(TerminationState::spec_init(), CoordinatorOp::RequestTerminate).signal,
        abort_count(
            TerminationState::spec_init(),
            seq![CoordinatorOp::RequestTerminate, CoordinatorOp::RequestTerminate] + tail,
        ) == 1,
{
    let init = TerminationState::spec_init();
    let s1 = op_step(init, CoordinatorOp::RequestTerminate);
    let s2 = op_step(s1, CoordinatorOp::RequestTerminate);
    let ops = seq![CoordinatorOp::RequestTerminate, CoordinatorOp::RequestTerminate] + tail;
    assert(ops[0] == CoordinatorOp::RequestTerminate);
    assert(ops.drop_first()[0] == CoordinatorOp::RequestTerminate);
    assert(ops.drop_first().drop_first() =~= tail);
    lemma_ops_reach_terminated(s2, tail);
    assert(run_ops(init, ops) == run_ops(s1, ops.drop_first()));
    assert(run_ops(s1, ops.drop_first()) == run_ops(s2, ops.drop_first().drop_first()));
    assert(run_ops(init, ops).terminated);
    assert(forall|i: int| 0 <= i < ops.len() ==> !(#[trigger] ops[i] is ChannelClosedObserved))
        by {
        assert(forall|i: int|
            2 <= i < ops.len() ==> #[trigger] ops[i] == tail[i - 2] && !(tail[i - 2]
                is ChannelClosedObserved));
    }
    lemma_abort_invoked_exactly_once(ops);
}

} // verus!
