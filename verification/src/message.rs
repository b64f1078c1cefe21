//! Messages that flow through the runtime.
//!
//! User-visible traffic is a [`MessageHandle`]; the runtime's own signalling
//! between mailboxes and contexts is a [`SystemMessage`]. System messages are
//! always drained before user messages within a mailbox turn.
//!
//! [`MessageView`] is the mathematical shape of a message: the same value with
//! the header map read as a sequence of pairs. Contracts about copies of
//! messages speak of this view.

use vstd::prelude::*;

use crate::future::ActorFutureError;
use crate::message_envelope::MessageEnvelope;
use crate::pid::Pid;

verus! {

/// Why a watched process went away.
#[derive(Debug, Clone, Copy, PartialEq, Eq, Structural)]
pub enum TerminateReason {
    /// The process ran its stop sequence to completion.
    Stopped,
    /// The process could not be found when the notice was produced.
    NotFound,
}

/// A failure raised by user code inside an actor, caught by the invoker and
/// propagated to the supervisor.
#[derive(Debug, Clone, Copy, PartialEq, Eq, Structural)]
pub enum ActorError {
    /// `receive` failed on a user message.
    ReceiveError,
    /// A restart hook failed.
    RestartError,
    /// A stop hook failed.
    StopError,
    /// Initialisation (the pre-start hook) failed.
    InitError,
    /// Messaging on behalf of the actor failed.
    CommunicationError,
}

/// A user-level message. The runtime treats the payload as opaque: user
/// payloads are named by a code that the sender chooses.
#[derive(Debug)]
pub enum MessageHandle {
    /// An opaque user payload.
    User(u64),
    /// A payload wrapped together with headers and an optional sender.
    Envelope(Box<MessageEnvelope>),
    /// Notice that a watched process reached its end of life.
    Terminated { who: Pid, reason: TerminateReason },
    /// Delivered when an actor's receive timeout elapses with no traffic.
    ReceiveTimeout,
    /// Asks the receiving actor to stop itself after current traffic.
    PoisonPill,
    /// The reply sent on behalf of a dead process; fails a waiting future.
    DeadLetterResponse { target: Pid },
    /// A future's failure, forwarded to its pipe targets.
    FutureFault(ActorFutureError),
}

/// The mathematical shape of a message.
pub enum MessageView {
    User(u64),
    Envelope(EnvelopeView),
    Terminated { who: Pid, reason: TerminateReason },
    ReceiveTimeout,
    PoisonPill,
    DeadLetterResponse { target: Pid },
    FutureFault(ActorFutureError),
}

/// The mathematical shape of an envelope: the header map as a sequence of
/// key/value pairs, the payload, and the sender.
pub struct EnvelopeView {
    pub header: Option<Seq<(Seq<char>, Seq<char>)>>,
    pub message: Box<MessageView>,
    pub sender: Option<Pid>,
}

/// The view of an optional header map.
pub open spec fn headers_view_opt(
    h: Option<crate::message_envelope::MessageHeaders>,
) -> Option<Seq<(Seq<char>, Seq<char>)>> {
    match h {
        Some(hh) => Some(hh@),
        None => None,
    }
}

/// The view of a message.
pub open spec fn message_view(m: MessageHandle) -> MessageView
    decreases m,
{
    match m {
        MessageHandle::User(code) => MessageView::User(code),
        MessageHandle::Envelope(e) => MessageView::Envelope(envelope_view(*e)),
        MessageHandle::Terminated { who, reason } => MessageView::Terminated { who, reason },
        MessageHandle::ReceiveTimeout => MessageView::ReceiveTimeout,
        MessageHandle::PoisonPill => MessageView::PoisonPill,
        MessageHandle::DeadLetterResponse { target } => MessageView::DeadLetterResponse {
            target,
        },
        MessageHandle::FutureFault(e) => MessageView::FutureFault(e),
    }
}

/// The view of an envelope.
pub open spec fn envelope_view(e: MessageEnvelope) -> EnvelopeView
    decreases e,
{
    EnvelopeView {
        header: headers_view_opt(e.header),
        message: Box::new(message_view(e.message)),
        sender: e.sender,
    }
}

impl View for MessageHandle {
    type V = MessageView;

    open spec fn view(&self) -> MessageView {
        message_view(*self)
    }
}

/// The runtime's internal signalling, drained before user messages.
#[derive(Debug)]
pub enum SystemMessage {
    /// First signal a freshly spawned mailbox processes.
    Start,
    /// Begin the stop sequence.
    Stop,
    /// Supervisor orders the actor to restart from its props.
    Restart,
    /// Notice, during a restart, that the actor is about to be recreated.
    Restarting,
    /// Halt user-message processing.
    Suspend,
    /// Resume user-message processing.
    Resume,
    /// Register `watcher` for a termination notice.
    Watch { watcher: Pid },
    /// Remove `watcher` again.
    Unwatch { watcher: Pid },
    /// A child failed while handling `message`; the supervisor must decide.
    Failure { child: Pid, reason: ActorError, message: Box<MessageHandle> },
    /// A watched or owned process reached its end of life.
    Terminated { who: Pid, reason: TerminateReason },
}

impl Clone for MessageHandle {
    fn clone(&self) -> (r: Self)
        ensures
            r@ == self@,
        decreases *self,
    {
        match self {
            MessageHandle::User(code) => MessageHandle::User(*code),
            MessageHandle::Envelope(e) => MessageHandle::Envelope(Box::new((**e).clone())),
            MessageHandle::Terminated { who, reason } => MessageHandle::Terminated {
                who: who.clone(),
                reason: *reason,
            },
            MessageHandle::ReceiveTimeout => MessageHandle::ReceiveTimeout,
            MessageHandle::PoisonPill => MessageHandle::PoisonPill,
            MessageHandle::DeadLetterResponse { target } => MessageHandle::DeadLetterResponse {
                target: target.clone(),
            },
            MessageHandle::FutureFault(e) => MessageHandle::FutureFault(*e),
        }
    }
}

impl MessageHandle {
    /// The payload code of a plain user message, if this is one.
    pub fn user_payload(&self) -> (r: Option<u64>)
        ensures
            r == (match self {
                MessageHandle::User(code) => Some(*code),
                _ => None::<u64>,
            }),
    {
        match self {
            MessageHandle::User(code) => Some(*code),
            _ => None,
        }
    }
}

} // verus!
