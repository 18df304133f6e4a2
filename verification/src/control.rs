//! Terminal control events sent from a worker to its host, and the bounded
//! channel that carries them.
//!
//! The channel has capacity 1, a single producer (the worker) and a single
//! logical consumer (the host). Its closure — explicit, or as a side effect
//! of the sending side going away — is the terminal signal that the worker
//! thread has exited.

use vstd::prelude::*;

use crate::errors::EngineError;
use crate::errors::first_user_frame;
use crate::errors::find_user_frame;
use crate::errors::lemma_first_user_frame_targets_user_code;
use crate::errors::names_internal_source;

verus! {

/// A terminal notification from worker to host. Produced at most once per
/// worker lifetime; consumed at most once by the host.
#[derive(Debug, Clone, PartialEq, Eq)]
pub enum WorkerControlEvent {
    /// The worker ended with an error; carries what the engine reported.
    TerminalError(EngineError),
    /// The worker closed without error.
    Close,
}

/// The wire payload of a [`WorkerControlEvent::TerminalError`]: the message
/// and, when a user-code frame was available, its source location.
#[derive(Debug, Clone, PartialEq, Eq)]
pub struct TerminalErrorPayload {
    pub message: String,
    pub file_name: Option<String>,
    pub line_number: Option<i64>,
    pub column_number: Option<i64>,
}

/// The payload [`terminal_error_payload`] builds: for a script-level
/// exception, its message together with the location of the first frame
/// that points at user code; otherwise the generic error text alone.
pub open spec fn spec_terminal_error_payload(e: EngineError) -> TerminalErrorPayload {
    match e {
        EngineError::Js(js) => (TerminalErrorPayload {
            message: js.exception_message,
            file_name: match first_user_frame(js.frames@) {
                Some(f) => f.file_name,
                None => None,
            },
            line_number: match first_user_frame(js.frames@) {
                Some(f) => f.line_number,
                None => None,
            },
            column_number: match first_user_frame(js.frames@) {
                Some(f) => f.column_number,
                None => None,
            },
        }),
        EngineError::Other(text) => (TerminalErrorPayload {
            message: text,
            file_name: None,
            line_number: None,
            column_number: None,
        }),
    }
}

impl WorkerControlEvent {
    /// The numeric discriminant of this event on the wire: 1 for a terminal
    /// error, 3 for a close. Discriminant 2 is reserved and corresponds to
    /// no event; nothing here assigns it a meaning.
    pub open spec fn spec_type_id(self) -> i32 {
        match self {
            WorkerControlEvent::TerminalError(_) => 1i32,
            WorkerControlEvent::Close => 3i32,
        }
    }

    /// Returns the numeric wire discriminant of this event.
    pub fn type_id(&self) -> (r: i32)
        ensures
            r == self.spec_type_id(),
    {
        match self {
            WorkerControlEvent::TerminalError(_) => 1,
            WorkerControlEvent::Close => 3,
        }
    }
}

/// Builds the wire payload for a terminal error: the deepest available
/// script-level message, and a source location filtered so that it never
/// names internal infrastructure.
pub fn terminal_error_payload(e: &EngineError) -> (p: TerminalErrorPayload)
    ensures
        p == spec_terminal_error_payload(*e),
{
    match e {
        EngineError::Js(js) => {
            let frame_index = find_user_frame(&js.frames);
            match frame_index {
                Some(i) => {
                    let f = &js.frames[i];
                    let file_name = match &f.file_name {
                        Some(n) => Some(n.clone()),
                        None => None,
                    };
                    TerminalErrorPayload {
                        message: js.exception_message.clone(),
                        file_name,
                        line_number: f.line_number,
                        column_number: f.column_number,
                    }
                },
                None => TerminalErrorPayload {
                    message: js.exception_message.clone(),
                    file_name: None,
                    line_number: None,
                    column_number: None,
                },
            }
        },
        EngineError::Other(text) => TerminalErrorPayload {
            message: text.clone(),
            file_name: None,
            line_number: None,
            column_number: None,
        },
    }
}

/// Why a send on the control channel did not take place.
#[derive(Debug, Copy, Clone, PartialEq, Eq, Structural)]
pub enum ChannelSendError {
    /// The single buffer slot is occupied.
    Full,
    /// The receiving side is gone or the channel was closed.
    Disconnected,
}

/// What the host finds when it polls the control channel.
#[derive(Debug, Clone, PartialEq, Eq)]
pub enum ControlChannelRead {
    /// An event was waiting.
    Received(WorkerControlEvent),
    /// The channel is closed and drained: the worker is gone.
    Closed,
    /// Nothing waiting yet; a host would suspend until the worker sends or
    /// the channel closes.
    Empty,
}

/// The bounded worker-to-host control channel: one buffer slot, and a
/// closed flag that either side's shutdown sets.
pub struct ControlChannel {
    /// The event sitting in the channel's single slot, if any.
    pub queued: Option<WorkerControlEvent>,
    /// Whether the channel has been closed (explicitly, or because one side
    /// went away). A closed channel still hands out its buffered event.
    pub closed: bool,
}

impl ControlChannel {
    /// The channel as `create_handles` builds it: open and empty.
    pub open spec fn spec_init() -> ControlChannel {
        ControlChannel { queued: None, closed: false }
    }

    /// A fresh open, empty channel.
    pub fn new() -> (c: ControlChannel)
        ensures
            c == ControlChannel::spec_init(),
    {
        ControlChannel { queued: None, closed: false }
    }

    /// Whether the channel has been closed.
    pub fn is_closed(&self) -> (r: bool)
        ensures
            r == self.closed,
    {
        self.closed
    }

    /// Attempts to place an event in the channel's single slot.
    pub fn try_send(&mut self, event: WorkerControlEvent) -> (r: Result<(), ChannelSendError>)
        ensures
            old(self).closed ==> r == Err::<(), ChannelSendError>(ChannelSendError::Disconnected)
                && *final(self) == *old(self),
            !old(self).closed && old(self).queued is Some ==> r == Err::<(), ChannelSendError>(
                ChannelSendError::Full,
            ) && *final(self) == *old(self),
            !old(self).closed && old(self).queued is None ==> r == Ok::<(), ChannelSendError>(())
                && final(self).queued == Some(event) && !final(self).closed,
    {
        if self.closed {
            Err(ChannelSendError::Disconnected)
        } else if self.queued.is_some() {
            Err(ChannelSendError::Full)
        } else {
            self.queued = Some(event);
            Ok(())
        }
    }

    /// Closes the channel. The buffered event, if any, stays readable.
    pub fn close(&mut self)
        ensures
            final(self).closed,
            final(self).queued == old(self).queued,
    {
        self.closed = true;
    }

    /// The host's read of the channel: the buffered event if one is
    /// waiting, end-of-stream once the channel is closed and drained, and
    /// nothing otherwise.
    pub fn try_recv(&mut self) -> (r: ControlChannelRead)
        ensures
            old(self).queued matches Some(ev) ==> r == ControlChannelRead::Received(ev)
                && final(self).queued is None && final(self).closed == old(self).closed,
            old(self).queued is None && old(self).closed ==> r == ControlChannelRead::Closed
                && *final(self) == *old(self),
            old(self).queued is None && !old(self).closed ==> r == ControlChannelRead::Empty
                && *final(self) == *old(self),
    {
        match self.queued.take() {
            Some(ev) => ControlChannelRead::Received(ev),
            None => {
                if self.closed {
                    ControlChannelRead::Closed
                } else {
                    ControlChannelRead::Empty
                }
            },
        }
    }
}


/// The terminal payload for a script-level exception carries the thrown
/// error's own message, and whatever source location it carries never names
/// internal infrastructure: diagnostics point at user code.
pub proof fn lemma_terminal_error_payload_is_faithful(e: EngineError)
    ensures
        e matches EngineError::Js(js) ==> spec_terminal_error_payload(e).message
            == js.exception_message,
        e matches EngineError::Other(text) ==> spec_terminal_error_payload(e).message == text,
        match spec_terminal_error_payload(e).file_name {
            Some(n) => !names_internal_source(n@),
            None => true,
        },
{
    match e {
        EngineError::Js(js) => {
            lemma_first_user_frame_targets_user_code(js.frames@);
        },
        EngineError::Other(_) => {},
    }
}

} // verus!
