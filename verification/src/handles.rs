//! The worker/host handle pair and the shared state behind it.
//!
//! The worker-side handle must exist in two forms over its life: a movable
//! but not shareable form, created before the worker thread's non-movable
//! state exists, and a cloneable host-side form it is converted into on
//! arrival at the host thread. Both refer to the same underlying shared
//! state, which this model keeps in one [`WorkerSharedState`] value that
//! every handle operation takes explicitly: an interleaving of threads is a
//! sequence of such operations on the one shared value.

use vstd::prelude::*;

use crate::WorkerThreadType;
use crate::control::ChannelSendError;
use crate::control::ControlChannel;
use crate::control::ControlChannelRead;
use crate::control::WorkerControlEvent;
use crate::termination::ApplyOutcome;
use crate::termination::CoordinatorOp;
use crate::termination::TerminateRequestActions;
use crate::termination::TerminationState;
use crate::termination::op_aborts;
use crate::termination::op_step;

verus! {

/// Everything both sides of the worker boundary touch: the termination
/// coordinator, the control-event channel, the two entangled port
/// endpoints, and the in-worker cancellation token.
pub struct WorkerSharedState {
    /// The termination coordinator's flags.
    pub termination: TerminationState,
    /// The bounded worker-to-host control channel.
    pub channel: ControlChannel,
    /// Whether the host-side port endpoint is still entangled; either side
    /// can be disentangled independently of the other.
    pub host_port_entangled: bool,
    /// Whether the worker-side port endpoint is still entangled.
    pub worker_port_entangled: bool,
    /// The cancellation token in-worker operations observe.
    pub cancel_requested: bool,
}

impl WorkerSharedState {
    /// The state `create_handles` establishes: nothing requested, channel
    /// open and empty, both ports entangled.
    pub open spec fn spec_init() -> WorkerSharedState {
        WorkerSharedState {
            termination: TerminationState::spec_init(),
            channel: ControlChannel::spec_init(),
            host_port_entangled: true,
            worker_port_entangled: true,
            cancel_requested: false,
        }
    }
}

/// The worker-resident handle: the sending side of the control channel plus
/// the worker's name and kind.
pub struct WebWorkerInternalHandle {
    pub name: String,
    pub worker_type: WorkerThreadType,
}

/// The cross-thread-movable handle a spawn returns: created before any
/// non-movable worker state exists, moved across the thread boundary
/// exactly once, then converted into a [`WebWorkerHandle`].
pub struct SendableWebWorkerHandle {}

/// The cloneable host-resident handle. Conversion from
/// [`SendableWebWorkerHandle`] repackages the same underlying shared state
/// rather than copying it, so multiple clones refer to one worker. The
/// control-event receiver is read through an exclusive borrow of the shared
/// state, so at most one logical reader can hold it at a time.
#[derive(Clone)]
pub struct WebWorkerHandle {}

impl From<SendableWebWorkerHandle> for WebWorkerHandle {
    /// Converts the movable spawn-time handle into the cloneable host-side
    /// form.
    fn from(handle: SendableWebWorkerHandle) -> (r: WebWorkerHandle) {
        WebWorkerHandle {  }
    }
}

impl vstd::std_specs::convert::FromSpecImpl<SendableWebWorkerHandle> for WebWorkerHandle {
    open spec fn obeys_from_spec() -> bool {
        true
    }

    open spec fn from_spec(t: SendableWebWorkerHandle) -> WebWorkerHandle {
        WebWorkerHandle {  }
    }
}

/// Creates the worker-side and host-side halves of a handle pair, together
/// with the shared state both refer to. This happens before the script
/// engine is constructed, so a terminate request issued the instant the
/// pair exists is observable once the run loop starts.
pub fn create_handles(name: String, worker_type: WorkerThreadType) -> (r: (
    WebWorkerInternalHandle,
    SendableWebWorkerHandle,
    WorkerSharedState,
))
    ensures
        r.0.name == name,
        r.0.worker_type == worker_type,
        r.2 == WorkerSharedState::spec_init(),
{
    let internal = WebWorkerInternalHandle { name, worker_type };
    let sendable = SendableWebWorkerHandle {  };
    let shared = WorkerSharedState {
        termination: TerminationState::new(),
        channel: ControlChannel::new(),
        host_port_entangled: true,
        worker_port_entangled: true,
        cancel_requested: false,
    };
    (internal, sendable, shared)
}

impl WebWorkerInternalHandle {
    /// Posts a control event to the host, best effort. If the channel is
    /// already closed, the host has concluded the worker is gone: the event
    /// is dropped, the worker is recorded as terminated, and the call
    /// succeeds. Otherwise the event goes into the channel's single slot;
    /// `Full` is reported only if an event is already waiting there.
    pub fn post_event(&self, shared: &mut WorkerSharedState, event: WorkerControlEvent) -> (r:
        Result<(), ChannelSendError>)
        ensures
            final(shared).host_port_entangled == old(shared).host_port_entangled,
            final(shared).worker_port_entangled == old(shared).worker_port_entangled,
            final(shared).cancel_requested == old(shared).cancel_requested,
            old(shared).channel.closed ==> r == Ok::<(), ChannelSendError>(()) && final(shared).channel == old(shared).channel && final(shared).termination == op_step(
                old(shared).termination,
                CoordinatorOp::ChannelClosedObserved,
            ),
            !old(shared).channel.closed ==> final(shared).termination == old(shared).termination
                && !final(shared).channel.closed,
            !old(shared).channel.closed && old(shared).channel.queued is None ==> r == Ok::<
                (),
                ChannelSendError,
            >(()) && final(shared).channel.queued == Some(event),
            !old(shared).channel.closed && old(shared).channel.queued is Some ==> r == Err::<
                (),
                ChannelSendError,
            >(ChannelSendError::Full) && final(shared).channel == old(shared).channel,
    {
        if shared.channel.is_closed() {
            shared.termination.note_channel_closed();
            Ok(())
        } else {
            shared.channel.try_send(event)
        }
    }

    /// Whether this worker is terminated or being terminated.
    pub fn is_terminated(&self, shared: &WorkerSharedState) -> (r: bool)
        ensures
            r == shared.termination.terminated,
    {
        shared.termination.is_terminated()
    }

    /// The cooperative check, run from the polling thread: if the
    /// termination signal is set and not yet applied, terminates the worker
    /// now. Reports whether the worker is terminated or being terminated,
    /// and whether this call won the swap and must invoke the engine-abort
    /// capability.
    pub fn terminate_if_needed(&self, shared: &mut WorkerSharedState) -> (r: ApplyOutcome)
        ensures
            final(shared).termination == op_step(
                old(shared).termination,
                CoordinatorOp::ApplyIfNeeded,
            ),
            r.terminated_now == (old(shared).termination.signal || old(shared).termination.terminated),
            r.invoke_abort == op_aborts(old(shared).termination, CoordinatorOp::ApplyIfNeeded),
            final(shared).host_port_entangled == old(shared).host_port_entangled,
            final(shared).worker_port_entangled == old(shared).worker_port_entangled,
            final(shared).channel.queued == old(shared).channel.queued,
            r.invoke_abort ==> final(shared).channel.closed && final(shared).cancel_requested,
            !r.invoke_abort ==> final(shared).channel == old(shared).channel && final(shared).cancel_requested == old(shared).cancel_requested,
    {
        let already = shared.termination.is_terminated();
        if !already && shared.termination.signal {
            let invoke_abort = self.terminate(shared);
            ApplyOutcome { terminated_now: true, invoke_abort }
        } else {
            ApplyOutcome { terminated_now: already, invoke_abort: false }
        }
    }

    /// Terminates the worker from its own side: cancels in-worker
    /// operations, wakes the polling task, swaps the terminated flag, and
    /// closes the control channel to wake the host. The caller must invoke
    /// the engine-abort capability exactly when this call won the swap;
    /// repeat calls report `false` and abort nothing.
    pub fn terminate(&self, shared: &mut WorkerSharedState) -> (invoke_abort: bool)
        ensures
            final(shared).termination == op_step(
                old(shared).termination,
                CoordinatorOp::WorkerTerminate,
            ),
            invoke_abort == op_aborts(old(shared).termination, CoordinatorOp::WorkerTerminate),
            final(shared).cancel_requested,
            final(shared).channel.closed,
            final(shared).channel.queued == old(shared).channel.queued,
            final(shared).host_port_entangled == old(shared).host_port_entangled,
            final(shared).worker_port_entangled == old(shared).worker_port_entangled,
    {
        shared.cancel_requested = true;
        let invoke_abort = shared.termination.worker_terminate();
        shared.channel.close();
        invoke_abort
    }
}

impl WebWorkerHandle {
    /// Reads the next control event. Exclusive access to the shared state
    /// stands in for the single-occupancy receiver wrapper: at most one
    /// logical reader can be in this call at a time.
    pub fn get_control_event(&self, shared: &mut WorkerSharedState) -> (r: ControlChannelRead)
        ensures
            final(shared).termination == old(shared).termination,
            final(shared).host_port_entangled == old(shared).host_port_entangled,
            final(shared).worker_port_entangled == old(shared).worker_port_entangled,
            final(shared).cancel_requested == old(shared).cancel_requested,
            old(shared).channel.queued matches Some(ev) ==> r == ControlChannelRead::Received(ev)
                && final(shared).channel.queued is None && final(shared).channel.closed == old(shared).channel.closed,
            old(shared).channel.queued is None && old(shared).channel.closed ==> r
                == ControlChannelRead::Closed && final(shared).channel == old(shared).channel,
            old(shared).channel.queued is None && !old(shared).channel.closed ==> r
                == ControlChannelRead::Empty && final(shared).channel == old(shared).channel,
    {
        shared.channel.try_recv()
    }

    /// Requests termination of the worker: sets the termination signal and
    /// disentangles this handle's port. On the first effective request only,
    /// the returned actions direct the caller to wake the worker's polling
    /// task and to schedule the delayed forced abort
    /// ([`TerminationState::forced_abort`]) after the grace period. Safe to
    /// call concurrently from any number of cloned handles; never blocks,
    /// never fails, never invokes the abort capability itself.
    pub fn terminate(self, shared: &mut WorkerSharedState) -> (r: TerminateRequestActions)
        ensures
            final(shared).termination == op_step(
                old(shared).termination,
                CoordinatorOp::RequestTerminate,
            ),
            r.wake_worker == (!old(shared).termination.signal && !old(shared).termination.terminated),
            r.schedule_forced_abort == r.wake_worker,
            !final(shared).host_port_entangled,
            final(shared).worker_port_entangled == old(shared).worker_port_entangled,
            final(shared).channel == old(shared).channel,
            final(shared).cancel_requested == old(shared).cancel_requested,
    {
        let actions = shared.termination.request_terminate();
        shared.host_port_entangled = false;
        actions
    }
}

} // verus!
