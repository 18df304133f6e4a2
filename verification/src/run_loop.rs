//! The worker itself and its cooperative run-loop state machine.
//!
//! A worker moves through `Created`, `Bootstrapped`, `Loading` and `Running`
//! to exactly one terminal state. The engine — module loading, script
//! evaluation, and the event-loop poll — is an external collaborator: what
//! it did arrives here as plain events, and every decision taken on those
//! events is verified. The host that drives the loop performs the engine
//! calls, hands the outcomes in, and invokes the engine-abort capability
//! exactly when a step reports that it won the termination swap.

use vstd::prelude::*;

use crate::WorkerId;
use crate::WorkerThreadType;
use crate::errors::EngineError;
use crate::handles::SendableWebWorkerHandle;
use crate::handles::WebWorkerInternalHandle;
use crate::handles::WorkerSharedState;
use crate::handles::create_handles;
use crate::control::ControlChannel;
use crate::control::WorkerControlEvent;
use crate::termination::ApplyOutcome;
use crate::termination::CoordinatorOp;
use crate::termination::op_aborts;
use crate::termination::op_step;

verus! {

/// Where a worker stands in its lifecycle: the setup chain, the live poll
/// loop, and the four terminal states.
#[derive(Debug, Copy, Clone, PartialEq, Eq, Structural)]
pub enum WorkerPhase {
    /// Handles exist; the engine-abort capability is registered.
    Created,
    /// Identity and startup payload are bound into the engine.
    Bootstrapped,
    /// The entry point is being loaded and evaluated.
    Loading,
    /// The cooperative poll loop is live.
    Running,
    /// Terminal: the worker went idle with no message listener and was
    /// configured to close on idle.
    ClosedIdle,
    /// Terminal: the worker closed itself explicitly.
    ClosedExplicit,
    /// Terminal: loading or polling reported an engine error.
    TerminalError,
    /// Terminal: a termination request was applied.
    ForcedTerminate,
}

impl WorkerPhase {
    /// Whether this phase ends the worker's life.
    pub open spec fn is_terminal(self) -> bool {
        match self {
            WorkerPhase::ClosedIdle => true,
            WorkerPhase::ClosedExplicit => true,
            WorkerPhase::TerminalError => true,
            WorkerPhase::ForcedTerminate => true,
            _ => false,
        }
    }
}

/// The one-shot startup payload a spawner may hand a worker: a transferred
/// buffer, bound into the engine's global scope during bootstrap and
/// consumed exactly once.
#[derive(Debug, Clone, PartialEq, Eq)]
pub struct WorkerMetadata {
    pub buffer: Vec<u8>,
}

/// What a spawner decides about a worker. Engine construction and extension
/// wiring are the engine collaborator's affair and carry no options here.
#[derive(Debug, Clone, PartialEq, Eq)]
pub struct WebWorkerOptions {
    pub name: String,
    pub main_module: String,
    pub worker_id: WorkerId,
    pub worker_type: WorkerThreadType,
    /// Close the worker when it goes idle with no message listener, rather
    /// than keeping it alive indefinitely.
    pub close_on_idle: bool,
    pub maybe_worker_metadata: Option<WorkerMetadata>,
}

/// An isolated worker: its identity, its configuration, the worker-side
/// handle, and its place in the run-loop state machine.
pub struct WebWorker {
    pub id: WorkerId,
    pub name: String,
    pub worker_type: WorkerThreadType,
    pub main_module: String,
    pub close_on_idle: bool,
    pub internal_handle: WebWorkerInternalHandle,
    pub phase: WorkerPhase,
    /// The startup payload, present until bootstrap consumes it.
    pub maybe_worker_metadata: Option<WorkerMetadata>,
    /// Whether the one-time poll for queued messages has been issued.
    pub polling_started: bool,
}

/// `w`, moved to phase `phase`.
pub open spec fn with_phase(w: WebWorker, phase: WorkerPhase) -> WebWorker {
    WebWorker {
        id: w.id,
        name: w.name,
        worker_type: w.worker_type,
        main_module: w.main_module,
        close_on_idle: w.close_on_idle,
        internal_handle: w.internal_handle,
        phase,
        maybe_worker_metadata: w.maybe_worker_metadata,
        polling_started: w.polling_started,
    }
}

/// What one engine event-loop poll reported.
#[derive(Debug, PartialEq, Eq)]
pub enum EnginePoll {
    /// The engine has pending work and suspended.
    Pending,
    /// The engine's loop ended, cleanly or with an error.
    Ready(Result<(), EngineError>),
}

/// What one step of the cooperative poll loop decided.
#[derive(Debug, PartialEq, Eq)]
pub enum LoopPoll {
    /// Suspend until woken by new engine work or a termination signal.
    Pending,
    /// The loop is done with a successful result — the worker terminated or
    /// went idle. Termination always supersedes any concurrently-pending
    /// script error.
    Completed,
    /// The loop is done; the engine reported this error.
    Failed(EngineError),
    /// A persistent worker's engine loop ended while the contract requires
    /// it to keep running: a fatal internal-consistency violation, distinct
    /// from a script error. The embedder must fail fast rather than continue.
    Inconsistent,
}

/// One step's decision together with its side obligation.
#[derive(Debug, PartialEq, Eq)]
pub struct PollOutcome {
    pub poll: LoopPoll,
    /// This step won the termination swap: the caller must invoke the
    /// engine-abort capability, exactly this once.
    pub invoke_abort: bool,
}

/// The effect of the cooperative check on the shared state: the coordinator
/// step, and — when the check wins the swap — the cancelled token and the
/// closed channel that the worker-side terminate brings with it.
pub open spec fn spec_apply_if_needed(s: WorkerSharedState) -> (WorkerSharedState, ApplyOutcome) {
    let abort = op_aborts(s.termination, CoordinatorOp::ApplyIfNeeded);
    let outcome = ApplyOutcome {
        terminated_now: s.termination.signal || s.termination.terminated,
        invoke_abort: abort,
    };
    let s2 = WorkerSharedState {
        termination: op_step(s.termination, CoordinatorOp::ApplyIfNeeded),
        channel: if abort {
            ControlChannel { queued: s.channel.queued, closed: true }
        } else {
            s.channel
        },
        host_port_entangled: s.host_port_entangled,
        worker_port_entangled: s.worker_port_entangled,
        cancel_requested: if abort {
            true
        } else {
            s.cancel_requested
        },
    };
    (s2, outcome)
}

/// The shared state after the polling thread registers its waker.
pub open spec fn spec_register_waker(s: WorkerSharedState) -> WorkerSharedState {
    WorkerSharedState {
        termination: op_step(s.termination, CoordinatorOp::RegisterWaker),
        channel: s.channel,
        host_port_entangled: s.host_port_entangled,
        worker_port_entangled: s.worker_port_entangled,
        cancel_requested: s.cancel_requested,
    }
}

/// One step of the cooperative poll loop: the cooperative termination check,
/// waker registration, and the decision taken on what the engine's poll
/// reported. Returns the worker, the shared state, and the step's outcome.
pub open spec fn spec_poll_step(
    w: WebWorker,
    s: WorkerSharedState,
    engine: EnginePoll,
    has_message_event_listener: bool,
) -> (WebWorker, WorkerSharedState, PollOutcome) {
    let (s1, check) = spec_apply_if_needed(s);
    if check.terminated_now {
        (
            with_phase(w, WorkerPhase::ForcedTerminate),
            s1,
            PollOutcome { poll: LoopPoll::Completed, invoke_abort: check.invoke_abort },
        )
    } else {
        let s2 = spec_register_waker(s1);
        match engine {
            EnginePoll::Pending => (
                w,
                s2,
                PollOutcome { poll: LoopPoll::Pending, invoke_abort: false },
            ),
            EnginePoll::Ready(res) => {
                let (s3, recheck) = spec_apply_if_needed(s2);
                if recheck.terminated_now {
                    (
                        with_phase(w, WorkerPhase::ForcedTerminate),
                        s3,
                        PollOutcome {
                            poll: LoopPoll::Completed,
                            invoke_abort: recheck.invoke_abort,
                        },
                    )
                } else {
                    match res {
                        Err(e) => (
                            with_phase(w, WorkerPhase::TerminalError),
                            s3,
                            PollOutcome { poll: LoopPoll::Failed(e), invoke_abort: false },
                        ),
                        Ok(_) => {
                            if w.close_on_idle {
                                if has_message_event_listener {
                                    (
                                        w,
                                        s3,
                                        PollOutcome {
                                            poll: LoopPoll::Pending,
                                            invoke_abort: false,
                                        },
                                    )
                                } else {
                                    (
                                        with_phase(w, WorkerPhase::ClosedIdle),
                                        s3,
                                        PollOutcome {
                                            poll: LoopPoll::Completed,
                                            invoke_abort: false,
                                        },
                                    )
                                }
                            } else if w.worker_type is Module {
                                (
                                    w,
                                    s3,
                                    PollOutcome {
                                        poll: LoopPoll::Inconsistent,
                                        invoke_abort: false,
                                    },
                                )
                            } else {
                                (
                                    with_phase(w, WorkerPhase::ClosedIdle),
                                    s3,
                                    PollOutcome { poll: LoopPoll::Completed, invoke_abort: false },
                                )
                            }
                        },
                    }
                }
            },
        }
    }
}

impl WebWorker {
    /// Builds a worker from its options. The handle pair and the shared
    /// state exist from this moment — before any engine state — so a
    /// terminate request issued the instant the pair exists is observable
    /// once the loop starts.
    pub fn from_options(options: WebWorkerOptions) -> (r: (
        WebWorker,
        SendableWebWorkerHandle,
        WorkerSharedState,
    ))
        ensures
            r.0.id == options.worker_id,
            r.0.name == options.name,
            r.0.worker_type == options.worker_type,
            r.0.main_module == options.main_module,
            r.0.close_on_idle == options.close_on_idle,
            r.0.maybe_worker_metadata == options.maybe_worker_metadata,
            r.0.phase == WorkerPhase::Created,
            !r.0.polling_started,
            r.0.internal_handle.name == options.name,
            r.0.internal_handle.worker_type == options.worker_type,
            r.2 == WorkerSharedState::spec_init(),
    {
        let WebWorkerOptions {
            name,
            main_module,
            worker_id,
            worker_type,
            close_on_idle,
            maybe_worker_metadata,
        } = options;
        let (internal_handle, sendable, shared) = create_handles(name.clone(), worker_type);
        let worker = WebWorker {
            id: worker_id,
            name,
            worker_type,
            main_module,
            close_on_idle,
            internal_handle,
            phase: WorkerPhase::Created,
            maybe_worker_metadata,
            polling_started: false,
        };
        (worker, sendable, shared)
    }

    /// Binds identity into the engine's scope and hands the one-shot startup
    /// payload over, consuming it: a second bootstrap cannot replay it.
    /// Returns the payload for the engine to absorb.
    pub fn bootstrap(&mut self) -> (payload: Option<WorkerMetadata>)
        requires
            old(self).phase == WorkerPhase::Created,
        ensures
            *final(self) == (WebWorker {
                phase: WorkerPhase::Bootstrapped,
                maybe_worker_metadata: None,
                ..*old(self)
            }),
            payload == old(self).maybe_worker_metadata,
    {
        self.phase = WorkerPhase::Bootstrapped;
        self.maybe_worker_metadata.take()
    }

    /// Builds a worker and bootstraps it in one step; the startup payload is
    /// consumed into the engine.
    pub fn bootstrap_from_options(options: WebWorkerOptions) -> (r: (
        WebWorker,
        SendableWebWorkerHandle,
        WorkerSharedState,
    ))
        ensures
            r.0.id == options.worker_id,
            r.0.name == options.name,
            r.0.worker_type == options.worker_type,
            r.0.main_module == options.main_module,
            r.0.close_on_idle == options.close_on_idle,
            r.0.maybe_worker_metadata is None,
            r.0.phase == WorkerPhase::Bootstrapped,
            !r.0.polling_started,
            r.0.internal_handle.name == options.name,
            r.0.internal_handle.worker_type == options.worker_type,
            r.2 == WorkerSharedState::spec_init(),
    {
        let (mut worker, sendable, shared) = WebWorker::from_options(options);
        let _payload = worker.bootstrap();
        (worker, sendable, shared)
    }

    /// Issues the one-time, best-effort poll for messages queued before the
    /// loop started. In the engine this silently no-ops if termination has
    /// already begun.
    pub fn start_polling_for_messages(&mut self)
        requires
            old(self).phase == WorkerPhase::Loading,
            !old(self).polling_started,
        ensures
            *final(self) == (WebWorker { polling_started: true, ..*old(self) }),
    {
        self.polling_started = true;
    }

    /// One iteration of the cooperative poll loop, given what the engine's
    /// event-loop poll reported and whether a message listener is currently
    /// registered. Checks termination first — termination supersedes any
    /// pending script error — registers the waker, and classifies the
    /// engine's report. The termination check runs a second time once the
    /// engine's poll has returned: in a threaded embedding that second
    /// check is the synchronization point for a signal that lands while
    /// the engine runs (here such a signal arrives as an event before the
    /// step). The caller must invoke the engine-abort capability exactly
    /// when the outcome says so.
    pub fn poll_event_loop(
        &mut self,
        shared: &mut WorkerSharedState,
        engine: EnginePoll,
        has_message_event_listener: bool,
    ) -> (r: PollOutcome)
        requires
            old(self).phase == WorkerPhase::Running,
        ensures
            *final(self) == spec_poll_step(
                *old(self),
                *old(shared),
                engine,
                has_message_event_listener,
            ).0,
            *final(shared) == spec_poll_step(
                *old(self),
                *old(shared),
                engine,
                has_message_event_listener,
            ).1,
            r == spec_poll_step(*old(self), *old(shared), engine, has_message_event_listener).2,
    {
        let check = self.internal_handle.terminate_if_needed(shared);
        if check.terminated_now {
            self.phase = WorkerPhase::ForcedTerminate;
            return PollOutcome { poll: LoopPoll::Completed, invoke_abort: check.invoke_abort };
        }
        shared.termination.register_waker();
        match engine {
            EnginePoll::Pending => PollOutcome { poll: LoopPoll::Pending, invoke_abort: false },
            EnginePoll::Ready(res) => {
                let recheck = self.internal_handle.terminate_if_needed(shared);
                if recheck.terminated_now {
                    self.phase = WorkerPhase::ForcedTerminate;
                    return PollOutcome {
                        poll: LoopPoll::Completed,
                        invoke_abort: recheck.invoke_abort,
                    };
                }
                match res {
                    Err(e) => {
                        self.phase = WorkerPhase::TerminalError;
                        PollOutcome { poll: LoopPoll::Failed(e), invoke_abort: false }
                    },
                    Ok(_) => {
                        if self.close_on_idle {
                            if has_message_event_listener {
                                PollOutcome { poll: LoopPoll::Pending, invoke_abort: false }
                            } else {
                                self.phase = WorkerPhase::ClosedIdle;
                                PollOutcome { poll: LoopPoll::Completed, invoke_abort: false }
                            }
                        } else if self.worker_type == WorkerThreadType::Module {
                            PollOutcome { poll: LoopPoll::Inconsistent, invoke_abort: false }
                        } else {
                            self.phase = WorkerPhase::ClosedIdle;
                            PollOutcome { poll: LoopPoll::Completed, invoke_abort: false }
                        }
                    },
                }
            },
        }
    }
}


/// Something that happens to a live worker between or during poll-loop
/// iterations: an engine poll, an in-worker close, or termination activity
/// landing from another thread.
#[derive(Debug, PartialEq, Eq)]
pub enum WorkerLoopEvent {
    /// One engine event-loop poll, together with whether a message listener
    /// is currently registered.
    Poll { engine: EnginePoll, has_message_event_listener: bool },
    /// The script performed a close-equivalent call.
    CloseRequested,
    /// A host-side terminate request landed between steps.
    TerminateRequested,
    /// The delayed forced abort fired between steps.
    ForcedAbortFires,
}

/// The effect of one loop event: the worker, the shared state, how many
/// abort invocations the event obliges (0 or 1), whether it uncovered an
/// internal-consistency violation, whether the loop stops here, and the
/// loop's result if it does.
pub open spec fn spec_loop_event(w: WebWorker, s: WorkerSharedState, ev: WorkerLoopEvent) -> (
    WebWorker,
    WorkerSharedState,
    nat,
    bool,
    bool,
    Result<(), EngineError>,
) {
    match ev {
        WorkerLoopEvent::Poll { engine, has_message_event_listener } => {
            let step = spec_poll_step(w, s, engine, has_message_event_listener);
            let delta: nat = if step.2.invoke_abort {
                1nat
            } else {
                0nat
            };
            match step.2.poll {
                LoopPoll::Pending => (step.0, step.1, delta, false, false, Ok(())),
                LoopPoll::Completed => (step.0, step.1, delta, false, true, Ok(())),
                LoopPoll::Failed(e) => (step.0, step.1, delta, false, true, Err(e)),
                LoopPoll::Inconsistent => (step.0, step.1, delta, true, true, Ok(())),
            }
        },
        WorkerLoopEvent::CloseRequested => (
            with_phase(w, WorkerPhase::ClosedExplicit),
            s,
            0nat,
            false,
            true,
            Ok(()),
        ),
        WorkerLoopEvent::TerminateRequested => (
            w,
            WorkerSharedState {
                termination: op_step(s.termination, CoordinatorOp::RequestTerminate),
                channel: s.channel,
                host_port_entangled: false,
                worker_port_entangled: s.worker_port_entangled,
                cancel_requested: s.cancel_requested,
            },
            0nat,
            false,
            false,
            Ok(()),
        ),
        WorkerLoopEvent::ForcedAbortFires => (
            w,
            WorkerSharedState {
                termination: op_step(s.termination, CoordinatorOp::ForcedAbort),
                channel: s.channel,
                host_port_entangled: s.host_port_entangled,
                worker_port_entangled: s.worker_port_entangled,
                cancel_requested: s.cancel_requested,
            },
            if op_aborts(s.termination, CoordinatorOp::ForcedAbort) {
                1nat
            } else {
                0nat
            },
            false,
            false,
            Ok(()),
        ),
    }
}

/// Folds a sequence of loop events over the worker, stopping at the first
/// event that ends the loop: the worker, the shared state, the total abort
/// invocations, whether an internal-consistency violation occurred, and the
/// loop's result.
pub open spec fn spec_run_loop(
    w: WebWorker,
    s: WorkerSharedState,
    events: Seq<WorkerLoopEvent>,
) -> (WebWorker, WorkerSharedState, nat, bool, Result<(), EngineError>)
    decreases events.len(),
{
    if events.len() == 0 {
        (w, s, 0nat, false, Ok(()))
    } else {
        let step = spec_loop_event(w, s, events[0]);
        if step.4 {
            (step.0, step.1, step.2, step.3, step.5)
        } else {
            let rest = spec_run_loop(step.0, step.1, events.drop_first());
            (rest.0, rest.1, step.2 + rest.2, step.3 || rest.3, rest.4)
        }
    }
}

/// What driving the poll loop produced.
#[derive(Debug, PartialEq, Eq)]
pub struct EventLoopRun {
    /// `Ok` on a clean or terminated exit — and when the events ran out
    /// with the loop still live — and the engine's error otherwise.
    pub result: Result<(), EngineError>,
    /// How many times the engine-abort capability must have been invoked.
    pub aborts: usize,
    /// An internal-consistency violation was uncovered; the embedder must
    /// fail fast.
    pub inconsistency: bool,
}

impl WebWorker {
    /// Drives the cooperative poll loop over a sequence of events until an
    /// event ends it or the events run out (the worker then still lives,
    /// suspended). The caller invokes the engine-abort capability once per
    /// abort obligation reported — the proofs in [`crate::termination`]
    /// bound those obligations at one per worker lifetime.
    #[verifier::rlimit(100)]
    pub fn run_event_loop(&mut self, shared: &mut WorkerSharedState, events: Vec<
        WorkerLoopEvent,
    >) -> (r: EventLoopRun)
        requires
            old(self).phase == WorkerPhase::Running,
        ensures
            *final(self) == spec_run_loop(*old(self), *old(shared), events@).0,
            *final(shared) == spec_run_loop(*old(self), *old(shared), events@).1,
            r.aborts as nat == spec_run_loop(*old(self), *old(shared), events@).2,
            r.inconsistency == spec_run_loop(*old(self), *old(shared), events@).3,
            r.result == spec_run_loop(*old(self), *old(shared), events@).4,
    {
        let ghost w0 = *self;
        let ghost s0 = *shared;
        let ghost full = events@;
        let mut events = events;
        let n_events = events.len();
        proof {
            assert(full.len() == n_events as nat);
        }
        let mut aborts: usize = 0;
        let mut inconsistency: bool = false;
        let mut result: Result<(), EngineError> = Ok(());
        let mut done: bool = false;
        while !done && events.len() > 0
            invariant
                full.len() <= usize::MAX,
                aborts as nat + events@.len() <= full.len(),
                !done ==> self.phase == WorkerPhase::Running,
                !done ==> !inconsistency,
                !done ==> result == Ok::<(), EngineError>(()),
                done ==> spec_run_loop(w0, s0, full) == (
                    *self,
                    *shared,
                    aborts as nat,
                    inconsistency,
                    result,
                ),
                !done ==> spec_run_loop(w0, s0, full).0 == spec_run_loop(
                    *self,
                    *shared,
                    events@,
                ).0,
                !done ==> spec_run_loop(w0, s0, full).1 == spec_run_loop(
                    *self,
                    *shared,
                    events@,
                ).1,
                !done ==> spec_run_loop(w0, s0, full).2 == aborts as nat + spec_run_loop(
                    *self,
                    *shared,
                    events@,
                ).2,
                !done ==> spec_run_loop(w0, s0, full).3 == spec_run_loop(*self, *shared, events@).3,
                !done ==> spec_run_loop(w0, s0, full).4 == spec_run_loop(*self, *shared, events@).4,
            decreases events@.len(),
        {
            let ghost evs_pre = events@;
            let ev = events.remove(0);
            proof {
                assert(evs_pre.remove(0) =~= evs_pre.drop_first());
            }
            match ev {
                WorkerLoopEvent::Poll { engine, has_message_event_listener } => {
                    let out = self.poll_event_loop(shared, engine, has_message_event_listener);
                    if out.invoke_abort {
                        aborts = aborts + 1;
                    }
                    match out.poll {
                        LoopPoll::Pending => {},
                        LoopPoll::Completed => {
                            done = true;
                        },
                        LoopPoll::Failed(e) => {
                            result = Err(e);
                            done = true;
                        },
                        LoopPoll::Inconsistent => {
                            inconsistency = true;
                            done = true;
                        },
                    }
                },
                WorkerLoopEvent::CloseRequested => {
                    self.phase = WorkerPhase::ClosedExplicit;
                    done = true;
                },
                WorkerLoopEvent::TerminateRequested => {
                    let _actions = shared.termination.request_terminate();
                    shared.host_port_entangled = false;
                },
                WorkerLoopEvent::ForcedAbortFires => {
                    let won = shared.termination.forced_abort();
                    if won {
                        aborts = aborts + 1;
                    }
                },
            }
        }
        EventLoopRun { result, aborts, inconsistency }
    }
}

/// The shared state after the producer's best-effort post of `ev`.
pub open spec fn spec_post_event(s: WorkerSharedState, ev: WorkerControlEvent) -> WorkerSharedState {
    if s.channel.closed {
        WorkerSharedState {
            termination: op_step(s.termination, CoordinatorOp::ChannelClosedObserved),
            channel: s.channel,
            host_port_entangled: s.host_port_entangled,
            worker_port_entangled: s.worker_port_entangled,
            cancel_requested: s.cancel_requested,
        }
    } else if s.channel.queued is None {
        WorkerSharedState {
            termination: s.termination,
            channel: ControlChannel { queued: Some(ev), closed: false },
            host_port_entangled: s.host_port_entangled,
            worker_port_entangled: s.worker_port_entangled,
            cancel_requested: s.cancel_requested,
        }
    } else {
        s
    }
}

/// The shared state after the control channel closes — explicitly, or as
/// the side effect of the worker thread exiting and dropping the sender.
pub open spec fn spec_close_channel(s: WorkerSharedState) -> WorkerSharedState {
    WorkerSharedState {
        termination: s.termination,
        channel: ControlChannel { queued: s.channel.queued, closed: true },
        host_port_entangled: s.host_port_entangled,
        worker_port_entangled: s.worker_port_entangled,
        cancel_requested: s.cancel_requested,
    }
}

/// A whole worker run: the worker, the shared state as the host will find
/// it, the abort obligations incurred, and whether an internal-consistency
/// violation was uncovered.
pub open spec fn spec_run_web_worker(
    w: WebWorker,
    s: WorkerSharedState,
    has_source: bool,
    load_result: Result<(), EngineError>,
    events: Seq<WorkerLoopEvent>,
) -> (WebWorker, WorkerSharedState, nat, bool) {
    let polled = has_source || load_result is Ok;
    let w1 = with_phase(w, WorkerPhase::Loading);
    let w2 = if polled {
        WebWorker { polling_started: true, ..w1 }
    } else {
        w1
    };
    if s.termination.terminated {
        (with_phase(w2, WorkerPhase::ForcedTerminate), spec_close_channel(s), 0nat, false)
    } else {
        match load_result {
            Err(e) => (
                with_phase(w2, WorkerPhase::TerminalError),
                spec_close_channel(spec_post_event(s, WorkerControlEvent::TerminalError(e))),
                0nat,
                false,
            ),
            Ok(_) => {
                let run = spec_run_loop(with_phase(w2, WorkerPhase::Running), s, events);
                if run.3 {
                    (run.0, run.1, run.2, true)
                } else {
                    match run.4 {
                        Err(e) => (
                            run.0,
                            spec_close_channel(
                                spec_post_event(run.1, WorkerControlEvent::TerminalError(e)),
                            ),
                            run.2,
                            false,
                        ),
                        Ok(_) => {
                            if run.0.phase is Running {
                                (run.0, run.1, run.2, false)
                            } else if run.0.phase is ClosedIdle || run.0.phase is ClosedExplicit {
                                (
                                    run.0,
                                    spec_close_channel(
                                        spec_post_event(run.1, WorkerControlEvent::Close),
                                    ),
                                    run.2,
                                    false,
                                )
                            } else {
                                (run.0, spec_close_channel(run.1), run.2, false)
                            }
                        },
                    }
                }
            },
        }
    }
}

/// What a whole worker run obliges the embedder to do.
#[derive(Debug, Copy, Clone, PartialEq, Eq, Structural)]
pub struct RunReport {
    /// How many times the engine-abort capability must have been invoked.
    pub aborts: usize,
    /// An internal-consistency violation was uncovered; the embedder must
    /// fail fast rather than continue.
    pub inconsistency: bool,
}

/// Runs a bootstrapped worker to its terminal state, on its dedicated
/// thread: loading was performed by the engine with the given result;
/// message polling starts once the entry point is in place; the poll loop
/// consumes `events`; and exactly one terminal control event is attempted —
/// `Close` for a closed worker, `TerminalError` for the error path, nothing
/// beyond channel closure for a terminated one. A worker already terminated
/// when loading finishes exits successfully: termination supersedes any
/// pending script error.
pub fn run_web_worker(
    worker: &mut WebWorker,
    shared: &mut WorkerSharedState,
    maybe_source_code: Option<String>,
    load_result: Result<(), EngineError>,
    events: Vec<WorkerLoopEvent>,
) -> (r: RunReport)
    requires
        old(worker).phase == WorkerPhase::Bootstrapped,
        !old(worker).polling_started,
        old(shared).channel.queued is None,
    ensures
        *final(worker) == spec_run_web_worker(
            *old(worker),
            *old(shared),
            maybe_source_code is Some,
            load_result,
            events@,
        ).0,
        *final(shared) == spec_run_web_worker(
            *old(worker),
            *old(shared),
            maybe_source_code is Some,
            load_result,
            events@,
        ).1,
        r.aborts as nat == spec_run_web_worker(
            *old(worker),
            *old(shared),
            maybe_source_code is Some,
            load_result,
            events@,
        ).2,
        r.inconsistency == spec_run_web_worker(
            *old(worker),
            *old(shared),
            maybe_source_code is Some,
            load_result,
            events@,
        ).3,
{
    worker.phase = WorkerPhase::Loading;
    let has_source = maybe_source_code.is_some();
    if has_source || load_result.is_ok() {
        worker.start_polling_for_messages();
    }
    if worker.internal_handle.is_terminated(shared) {
        worker.phase = WorkerPhase::ForcedTerminate;
        shared.channel.close();
        return RunReport { aborts: 0, inconsistency: false };
    }
    match load_result {
        Err(e) => {
            worker.phase = WorkerPhase::TerminalError;
            let _sent = worker.internal_handle.post_event(
                shared,
                WorkerControlEvent::TerminalError(e),
            );
            shared.channel.close();
            RunReport { aborts: 0, inconsistency: false }
        },
        Ok(_) => {
            worker.phase = WorkerPhase::Running;
            let run = worker.run_event_loop(shared, events);
            if run.inconsistency {
                return RunReport { aborts: run.aborts, inconsistency: true };
            }
            match run.result {
                Err(e) => {
                    let _sent = worker.internal_handle.post_event(
                        shared,
                        WorkerControlEvent::TerminalError(e),
                    );
                    shared.channel.close();
                    RunReport { aborts: run.aborts, inconsistency: false }
                },
                Ok(_) => {
                    if worker.phase == WorkerPhase::Running {
                        RunReport { aborts: run.aborts, inconsistency: false }
                    } else if worker.phase == WorkerPhase::ClosedIdle || worker.phase
                        == WorkerPhase::ClosedExplicit {
                        let _sent = worker.internal_handle.post_event(
                            shared,
                            WorkerControlEvent::Close,
                        );
                        shared.channel.close();
                        RunReport { aborts: run.aborts, inconsistency: false }
                    } else {
                        shared.channel.close();
                        RunReport { aborts: run.aborts, inconsistency: false }
                    }
                },
            }
        },
    }
}


/// An engine poll that reported pending work: the loop suspends and the
/// worker stays live.
pub open spec fn is_pending_poll(ev: WorkerLoopEvent) -> bool {
    ev matches WorkerLoopEvent::Poll { engine: EnginePoll::Pending, .. }
}

/// A persistent worker — one configured to stay alive when idle — that is
/// never closed and never externally terminated never reaches a terminal
/// state, invokes no abort, and leaves the control channel untouched,
/// however long the host keeps polling the run loop.
pub proof fn lemma_persistent_worker_never_terminal(
    w: WebWorker,
    s: WorkerSharedState,
    events: Seq<WorkerLoopEvent>,
)
    requires
        w.phase is Running,
        !w.close_on_idle,
        !s.termination.signal,
        !s.termination.terminated,
        forall|i: int| 0 <= i < events.len() ==> is_pending_poll(#[trigger] events[i]),
    ensures
        spec_run_loop(w, s, events).0 == w,
        !spec_run_loop(w, s, events).0.phase.is_terminal(),
        spec_run_loop(w, s, events).1.channel == s.channel,
        spec_run_loop(w, s, events).2 == 0,
        spec_run_loop(w, s, events).3 == false,
        spec_run_loop(w, s, events).4 == Ok::<(), EngineError>(()),
    decreases events.len(),
{
    if events.len() > 0 {
        assert(is_pending_poll(events[0]));
        let s2 = spec_register_waker(s);
        assert(forall|i: int|
            0 <= i < events.drop_first().len() ==> is_pending_poll(
                #[trigger] events.drop_first()[i],
            ));
        lemma_persistent_worker_never_terminal(w, s2, events.drop_first());
    }
}

/// A worker configured to close on idle whose engine reports pending work
/// for a while and then finishes cleanly with no message listener reaches
/// exactly the `ClosedIdle` terminal state: no abort, no error, and the
/// control channel untouched by the loop itself.
pub proof fn lemma_close_on_idle_reaches_closed_idle(
    w: WebWorker,
    s: WorkerSharedState,
    events: Seq<WorkerLoopEvent>,
    k: int,
)
    requires
        w.phase is Running,
        w.close_on_idle,
        !s.termination.signal,
        !s.termination.terminated,
        0 <= k < events.len(),
        forall|i: int| 0 <= i < k ==> is_pending_poll(#[trigger] events[i]),
        events[k] matches WorkerLoopEvent::Poll {
            engine: EnginePoll::Ready(res),
            has_message_event_listener: false,
        } && res is Ok,
    ensures
        spec_run_loop(w, s, events).0.phase is ClosedIdle,
        spec_run_loop(w, s, events).1.channel == s.channel,
        spec_run_loop(w, s, events).2 == 0,
        spec_run_loop(w, s, events).3 == false,
        spec_run_loop(w, s, events).4 == Ok::<(), EngineError>(()),
    decreases k,
{
    if k == 0 {
        assert(events[0] matches WorkerLoopEvent::Poll {
            engine: EnginePoll::Ready(res),
            has_message_event_listener: false,
        } && res is Ok);
    } else {
        assert(is_pending_poll(events[0]));
        let s2 = spec_register_waker(s);
        assert(events.drop_first()[k - 1] == events[k]);
        lemma_close_on_idle_reaches_closed_idle(w, s2, events.drop_first(), k - 1);
    }
}

/// A worker whose script performs a close-equivalent call reaches exactly
/// the `ClosedExplicit` terminal state: no abort, no error, and the control
/// channel untouched by the loop itself.
pub proof fn lemma_close_request_reaches_closed_explicit(
    w: WebWorker,
    s: WorkerSharedState,
    events: Seq<WorkerLoopEvent>,
    k: int,
)
    requires
        w.phase is Running,
        !s.termination.signal,
        !s.termination.terminated,
        0 <= k < events.len(),
        forall|i: int| 0 <= i < k ==> is_pending_poll(#[trigger] events[i]),
        events[k] is CloseRequested,
    ensures
        spec_run_loop(w, s, events).0.phase is ClosedExplicit,
        spec_run_loop(w, s, events).1.channel == s.channel,
        spec_run_loop(w, s, events).2 == 0,
        spec_run_loop(w, s, events).3 == false,
        spec_run_loop(w, s, events).4 == Ok::<(), EngineError>(()),
    decreases k,
{
    if k > 0 {
        assert(is_pending_poll(events[0]));
        let s2 = spec_register_waker(s);
        assert(events.drop_first()[k - 1] == events[k]);
        lemma_close_request_reaches_closed_explicit(w, s2, events.drop_first(), k - 1);
    }
}

/// A freshly spawned worker configured to close on idle, whose entry point
/// loads cleanly and whose engine then goes idle with no message listener,
/// ends in `ClosedIdle`, and the host observes exactly one `Close` event
/// followed by end of stream — never a `TerminalError`, never an abort.
pub proof fn lemma_idle_close_delivers_single_close(
    w: WebWorker,
    s: WorkerSharedState,
    has_source: bool,
    events: Seq<WorkerLoopEvent>,
    k: int,
)
    requires
        w.phase is Bootstrapped,
        w.close_on_idle,
        s == WorkerSharedState::spec_init(),
        0 <= k < events.len(),
        forall|i: int| 0 <= i < k ==> is_pending_poll(#[trigger] events[i]),
        events[k] matches WorkerLoopEvent::Poll {
            engine: EnginePoll::Ready(res),
            has_message_event_listener: false,
        } && res is Ok,
    ensures
        spec_run_web_worker(w, s, has_source, Ok(()), events).0.phase is ClosedIdle,
        spec_run_web_worker(w, s, has_source, Ok(()), events).1.channel.queued == Some(
            WorkerControlEvent::Close,
        ),
        spec_run_web_worker(w, s, has_source, Ok(()), events).1.channel.closed,
        spec_run_web_worker(w, s, has_source, Ok(()), events).2 == 0,
        spec_run_web_worker(w, s, has_source, Ok(()), events).3 == false,
{
    let w1 = with_phase(w, WorkerPhase::Loading);
    let w2 = WebWorker { polling_started: true, ..w1 };
    let w3 = with_phase(w2, WorkerPhase::Running);
    lemma_close_on_idle_reaches_closed_idle(w3, s, events, k);
}

/// A freshly spawned worker whose entry module immediately performs a
/// close-equivalent call ends in `ClosedExplicit`, and the host observes
/// exactly one `Close` event followed by end of stream — never a
/// `TerminalError`, never an abort.
pub proof fn lemma_worker_close_delivers_single_close(
    w: WebWorker,
    s: WorkerSharedState,
    has_source: bool,
    events: Seq<WorkerLoopEvent>,
    k: int,
)
    requires
        w.phase is Bootstrapped,
        s == WorkerSharedState::spec_init(),
        0 <= k < events.len(),
        forall|i: int| 0 <= i < k ==> is_pending_poll(#[trigger] events[i]),
        events[k] is CloseRequested,
    ensures
        spec_run_web_worker(w, s, has_source, Ok(()), events).0.phase is ClosedExplicit,
        spec_run_web_worker(w, s, has_source, Ok(()), events).1.channel.queued == Some(
            WorkerControlEvent::Close,
        ),
        spec_run_web_worker(w, s, has_source, Ok(()), events).1.channel.closed,
        spec_run_web_worker(w, s, has_source, Ok(()), events).2 == 0,
        spec_run_web_worker(w, s, has_source, Ok(()), events).3 == false,
{
    let w1 = with_phase(w, WorkerPhase::Loading);
    let w2 = WebWorker { polling_started: true, ..w1 };
    let w3 = with_phase(w2, WorkerPhase::Running);
    lemma_close_request_reaches_closed_explicit(w3, s, events, k);
}

/// A freshly spawned worker whose entry point fails to load or evaluate
/// ends in `TerminalError`, and the host observes exactly one
/// `TerminalError` event — carrying that very error — followed by end of
/// stream; no abort is invoked.
pub proof fn lemma_load_error_delivers_terminal_error(
    w: WebWorker,
    s: WorkerSharedState,
    has_source: bool,
    e: EngineError,
    events: Seq<WorkerLoopEvent>,
)
    requires
        w.phase is Bootstrapped,
        s == WorkerSharedState::spec_init(),
    ensures
        spec_run_web_worker(w, s, has_source, Err(e), events).0.phase is TerminalError,
        spec_run_web_worker(w, s, has_source, Err(e), events).1.channel.queued == Some(
            WorkerControlEvent::TerminalError(e),
        ),
        spec_run_web_worker(w, s, has_source, Err(e), events).1.channel.closed,
        spec_run_web_worker(w, s, has_source, Err(e), events).2 == 0,
        spec_run_web_worker(w, s, has_source, Err(e), events).3 == false,
{
}


/// Driving the poll loop obliges at most one abort invocation — none at
/// all once the worker is already recorded as terminated.
pub proof fn lemma_run_loop_abort_bound(
    w: WebWorker,
    s: WorkerSharedState,
    events: Seq<WorkerLoopEvent>,
)
    ensures
        spec_run_loop(w, s, events).2 <= (if s.termination.terminated {
            0nat
        } else {
            1nat
        }),
    decreases events.len(),
{
    if events.len() > 0 {
        let step = spec_loop_event(w, s, events[0]);
        if !step.4 {
            lemma_run_loop_abort_bound(step.0, step.1, events.drop_first());
        }
    }
}

/// Over one whole worker run — loading, the poll loop, and the terminal
/// control event — the engine-abort capability is obliged at most once,
/// whatever the engine reports and however termination activity lands.
pub proof fn lemma_run_web_worker_single_abort(
    w: WebWorker,
    s: WorkerSharedState,
    has_source: bool,
    load_result: Result<(), EngineError>,
    events: Seq<WorkerLoopEvent>,
)
    ensures
        spec_run_web_worker(w, s, has_source, load_result, events).2 <= 1,
{
    if !s.termination.terminated && load_result is Ok {
        let polled = has_source || load_result is Ok;
        let w1 = with_phase(w, WorkerPhase::Loading);
        let w2 = if polled {
            WebWorker { polling_started: true, ..w1 }
        } else {
            w1
        };
        lemma_run_loop_abort_bound(with_phase(w2, WorkerPhase::Running), s, events);
    }
}

} // verus!
