//! The one-shot future process behind request/response.
//!
//! A future registers itself as a process; a reply delivered to its pid
//! resolves it. Exactly one of `complete` or `fail` takes effect; later calls
//! change nothing. On resolution every pipe target is notified exactly once
//! and every queued continuation is handed back to the caller to run.

use vstd::prelude::*;

use crate::message::{MessageHandle, MessageView};
use crate::pid::Pid;

verus! {

/// Why a request/response future did not yield a reply.
#[derive(Debug, Clone, Copy, PartialEq, Eq, Structural)]
pub enum ActorFutureError {
    /// No reply arrived before the future's deadline.
    TimeoutError,
    /// The target was dead and the dead-letter process answered instead.
    DeadLetterError,
}

/// The abstract state of a future.
pub struct FutureView {
    pub pid: Option<Pid>,
    pub done: bool,
    pub result: Option<MessageView>,
    pub error: Option<ActorFutureError>,
    pub pipes: Seq<Pid>,
    pub completions: Seq<u64>,
}

/// The view of an optional stored reply.
pub open spec fn result_view(m: Option<MessageHandle>) -> Option<MessageView> {
    match m {
        Some(mm) => Some(mm@),
        None => None,
    }
}

/// Reads a list of notifications at the view level.
pub open spec fn sends_view(s: Seq<(Pid, MessageHandle)>) -> Seq<(Pid, MessageView)> {
    s.map_values(|p: (Pid, MessageHandle)| (p.0, p.1@))
}

/// One-shot state: unresolved, or resolved with either a reply or an error.
#[derive(Debug)]
pub struct ActorFuture {
    pub pid: Option<Pid>,
    pub done: bool,
    pub result: Option<MessageHandle>,
    pub error: Option<ActorFutureError>,
    pub pipes: Vec<Pid>,
    pub completions: Vec<u64>,
}

impl View for ActorFuture {
    type V = FutureView;

    open spec fn view(&self) -> FutureView {
        FutureView {
            pid: self.pid,
            done: self.done,
            result: result_view(self.result),
            error: self.error,
            pipes: self.pipes@,
            completions: self.completions@,
        }
    }
}

/// What resolving an unresolved future with `complete` yields.
pub open spec fn spec_complete(v: FutureView, m: MessageView) -> FutureView {
    if v.done {
        v
    } else {
        FutureView {
            done: true,
            result: Some(m),
            error: None,
            pipes: Seq::empty(),
            completions: Seq::empty(),
            ..v
        }
    }
}

/// What resolving an unresolved future with `fail` yields.
pub open spec fn spec_fail(v: FutureView, e: ActorFutureError) -> FutureView {
    if v.done {
        v
    } else {
        FutureView {
            done: true,
            result: None,
            error: Some(e),
            pipes: Seq::empty(),
            completions: Seq::empty(),
            ..v
        }
    }
}

/// The notifications a resolution carrying `payload` produces: one per
/// registered pipe target, in registration order; none once resolved.
pub open spec fn spec_resolution_sends(v: FutureView, payload: MessageView) -> Seq<
    (Pid, MessageView),
> {
    if v.done {
        Seq::empty()
    } else {
        v.pipes.map_values(|p: Pid| (p, payload))
    }
}

/// The payload a resolved future hands to late pipe targets: the error if it
/// failed, the stored reply otherwise.
pub open spec fn spec_resolved_payload(v: FutureView) -> MessageView
    recommends
        v.done,
{
    match v.error {
        Some(e) => MessageView::FutureFault(e),
        None => v.result.unwrap(),
    }
}

/// Side effects of an operation on a future, for the caller to carry out:
/// messages to send and continuation tokens to run.
#[derive(Debug)]
pub struct FutureEffects {
    pub sends: Vec<(Pid, MessageHandle)>,
    pub callbacks: Vec<u64>,
}

impl FutureEffects {
    fn none() -> (r: Self)
        ensures
            r.sends@ == Seq::<(Pid, MessageHandle)>::empty(),
            r.callbacks@ == Seq::<u64>::empty(),
    {
        FutureEffects { sends: Vec::new(), callbacks: Vec::new() }
    }
}

impl ActorFuture {
    /// Resolved futures keep neither pipes nor continuations, and carry
    /// exactly one of a reply or an error; unresolved futures carry neither.
    pub open spec fn wf(&self) -> bool {
        &&& self.done == (self.result is Some || self.error is Some)
        &&& !(self.result is Some && self.error is Some)
        &&& self.done ==> self.pipes@.len() == 0 && self.completions@.len() == 0
    }

    /// A fresh, unresolved future with no pid assigned yet.
    pub fn new() -> (r: Self)
        ensures
            r.wf(),
            !r@.done,
            r@.pid is None,
            r@.pipes == Seq::<Pid>::empty(),
            r@.completions == Seq::<u64>::empty(),
    {
        ActorFuture {
            pid: None,
            done: false,
            result: None,
            error: None,
            pipes: Vec::new(),
            completions: Vec::new(),
        }
    }

    /// Records the pid under which this future is registered.
    pub fn set_pid(&mut self, pid: Pid)
        ensures
            *final(self) == (ActorFuture { pid: Some(pid), ..*old(self) }),
    {
        self.pid = Some(pid);
    }

    /// The pid under which this future is registered.
    pub fn get_pid(&self) -> (r: Option<Pid>)
        ensures
            r == self@.pid,
    {
        match &self.pid {
            Some(p) => Some(p.clone()),
            None => None,
        }
    }

    /// True while the future is still waiting for its resolution.
    pub fn is_empty(&self) -> (r: bool)
        ensures
            r == !self@.done,
    {
        !self.done
    }

    /// The resolution, if any: `None` while pending, then `Ok` with the reply
    /// or `Err` with the failure.
    pub fn result(&self) -> (r: Option<Result<MessageHandle, ActorFutureError>>)
        requires
            self.wf(),
        ensures
            match r {
                None => !self@.done,
                Some(Err(e)) => self@.error == Some(e),
                Some(Ok(m)) => self@.done && self@.error is None && self@.result == Some(m@),
            },
    {
        if !self.done {
            return None;
        }
        match &self.error {
            Some(e) => Some(Err(*e)),
            None => match &self.result {
                Some(m) => Some(Ok(m.clone())),
                None => None,
            },
        }
    }

    /// Builds the notifications for the registered pipes, each carrying a
    /// copy of `payload`.
    fn pipe_sends(&self, payload: &MessageHandle) -> (r: Vec<(Pid, MessageHandle)>)
        ensures
            sends_view(r@) == self@.pipes.map_values(|p: Pid| (p, payload@)),
    {
        let mut r: Vec<(Pid, MessageHandle)> = Vec::new();
        let mut i: usize = 0;
        while i < self.pipes.len()
            invariant
                i <= self.pipes.len(),
                r@.len() == i as int,
                forall|j: int| 0 <= j < i ==> r@[j].0 == self.pipes@[j] && r@[j].1@ == payload@,
            decreases self.pipes.len() - i,
        {
            let pid_i = self.pipes[i].clone();
            let msg_i = payload.clone();
            proof {
                assert(pid_i == self.pipes@[i as int]);
                assert(msg_i@ == payload@);
            }
            r.push((pid_i, msg_i));
            i = i + 1;
        }
        proof {
            assert(sends_view(r@) =~= self@.pipes.map_values(|p: Pid| (p, payload@)));
        }
        r
    }

    /// Takes all queued continuation tokens, leaving none behind.
    fn take_callbacks(&mut self) -> (r: Vec<u64>)
        ensures
            r@ == old(self)@.completions,
            final(self).pid == old(self).pid,
            final(self).done == old(self).done,
            final(self).result == old(self).result,
            final(self).error == old(self).error,
            final(self).pipes == old(self).pipes,
            final(self).completions@ == Seq::<u64>::empty(),
    {
        let mut r: Vec<u64> = Vec::new();
        let mut i: usize = 0;
        while i < self.completions.len()
            invariant
                i <= self.completions.len(),
                r@ == old(self).completions@.take(i as int),
                *self == *old(self),
            decreases self.completions.len() - i,
        {
            r.push(self.completions[i]);
            i = i + 1;
        }
        proof {
            assert(r@ =~= old(self).completions@);
        }
        self.completions.clear();
        r
    }

    /// Resolves the future with a reply. The first resolution wins: once
    /// done, the state does not change and no notification goes out.
    pub fn complete(&mut self, result: MessageHandle) -> (effects: FutureEffects)
        requires
            old(self).wf(),
        ensures
            final(self).wf(),
            final(self)@ == spec_complete(old(self)@, result@),
            sends_view(effects.sends@) == spec_resolution_sends(old(self)@, result@),
            effects.callbacks@ == (if old(self)@.done {
                Seq::<u64>::empty()
            } else {
                old(self)@.completions
            }),
    {
        if self.done {
            return FutureEffects::none();
        }
        let sends = self.pipe_sends(&result);
        let callbacks = self.take_callbacks();
        self.pipes.clear();
        self.done = true;
        self.result = Some(result);
        self.error = None;
        FutureEffects { sends, callbacks }
    }

    /// Resolves the future with an error. The first resolution wins; pipe
    /// targets are notified with the error instead of a reply.
    pub fn fail(&mut self, error: ActorFutureError) -> (effects: FutureEffects)
        requires
            old(self).wf(),
        ensures
            final(self).wf(),
            final(self)@ == spec_fail(old(self)@, error),
            sends_view(effects.sends@) == spec_resolution_sends(
                old(self)@,
                MessageView::FutureFault(error),
            ),
            effects.callbacks@ == (if old(self)@.done {
                Seq::<u64>::empty()
            } else {
                old(self)@.completions
            }),
    {
        if self.done {
            return FutureEffects::none();
        }
        let payload = MessageHandle::FutureFault(error);
        let sends = self.pipe_sends(&payload);
        let callbacks = self.take_callbacks();
        self.pipes.clear();
        self.done = true;
        self.result = None;
        self.error = Some(error);
        FutureEffects { sends, callbacks }
    }

    /// The future's deadline passed: resolve it with a timeout.
    pub fn handle_timeout(&mut self) -> (effects: FutureEffects)
        requires
            old(self).wf(),
        ensures
            final(self).wf(),
            final(self)@ == spec_fail(old(self)@, ActorFutureError::TimeoutError),
            sends_view(effects.sends@) == spec_resolution_sends(
                old(self)@,
                MessageView::FutureFault(ActorFutureError::TimeoutError),
            ),
    {
        self.fail(ActorFutureError::TimeoutError)
    }

    /// Registers a pipe target. If the future is already resolved the target
    /// is notified at once and nothing is stored.
    pub fn pipe_to(&mut self, pid: Pid) -> (effects: FutureEffects)
        requires
            old(self).wf(),
        ensures
            final(self).wf(),
            old(self)@.done ==> *final(self) == *old(self) && effects.sends@.len() == 1
                && effects.sends@[0].0 == pid
                && effects.sends@[0].1@ == spec_resolved_payload(old(self)@),
            !old(self)@.done ==> final(self)@ == (FutureView {
                pipes: old(self)@.pipes.push(pid),
                ..old(self)@
            }) && effects.sends@.len() == 0,
            effects.callbacks@.len() == 0,
    {
        if self.done {
            let payload = match &self.error {
                Some(e) => MessageHandle::FutureFault(*e),
                None => match &self.result {
                    Some(m) => m.clone(),
                    None => MessageHandle::FutureFault(ActorFutureError::DeadLetterError),
                },
            };
            let mut sends: Vec<(Pid, MessageHandle)> = Vec::new();
            sends.push((pid, payload));
            FutureEffects { sends, callbacks: Vec::new() }
        } else {
            self.pipes.push(pid);
            FutureEffects::none()
        }
    }

    /// Queues a continuation token; if the future is already resolved the
    /// token is handed straight back to be run.
    pub fn continue_with(&mut self, token: u64) -> (effects: FutureEffects)
        requires
            old(self).wf(),
        ensures
            final(self).wf(),
            old(self)@.done ==> *final(self) == *old(self) && effects.callbacks@ == seq![token],
            !old(self)@.done ==> final(self)@ == (FutureView {
                completions: old(self)@.completions.push(token),
                ..old(self)@
            }) && effects.callbacks@.len() == 0,
            effects.sends@.len() == 0,
    {
        if self.done {
            let mut callbacks: Vec<u64> = Vec::new();
            callbacks.push(token);
            FutureEffects { sends: Vec::new(), callbacks }
        } else {
            self.completions.push(token);
            FutureEffects::none()
        }
    }

    /// A user message arriving at the future's pid: a dead-letter response
    /// fails it, anything else completes it.
    pub fn send_user_message(&mut self, message: MessageHandle) -> (effects: FutureEffects)
        requires
            old(self).wf(),
        ensures
            final(self).wf(),
            final(self)@ == (match message {
                MessageHandle::DeadLetterResponse { .. } => spec_fail(
                    old(self)@,
                    ActorFutureError::DeadLetterError,
                ),
                _ => spec_complete(old(self)@, message@),
            }),
            sends_view(effects.sends@) == spec_resolution_sends(
                old(self)@,
                (match message {
                    MessageHandle::DeadLetterResponse { .. } => MessageView::FutureFault(
                        ActorFutureError::DeadLetterError,
                    ),
                    _ => message@,
                }),
            ),
            effects.callbacks@ == (if old(self)@.done {
                Seq::<u64>::empty()
            } else {
                old(self)@.completions
            }),
    {
        match message {
            MessageHandle::DeadLetterResponse { .. } => self.fail(
                ActorFutureError::DeadLetterError,
            ),
            other => self.complete(other),
        }
    }

    /// A system message arriving at the future's pid completes it; lifecycle
    /// acknowledgements resolve waiting requests this way.
    pub fn send_system_message(&mut self, message: MessageHandle) -> (effects: FutureEffects)
        requires
            old(self).wf(),
        ensures
            final(self).wf(),
            final(self)@ == spec_complete(old(self)@, message@),
            sends_view(effects.sends@) == spec_resolution_sends(old(self)@, message@),
            effects.callbacks@ == (if old(self)@.done {
                Seq::<u64>::empty()
            } else {
                old(self)@.completions
            }),
    {
        self.complete(message)
    }
}

/// Exactly one resolution takes effect: after a `complete` or `fail`, any
/// further `complete` or `fail` leaves the state unchanged.
pub proof fn lemma_resolution_first_wins(
    v: FutureView,
    m1: MessageView,
    m2: MessageView,
    e1: ActorFutureError,
    e2: ActorFutureError,
)
    ensures
        spec_complete(spec_complete(v, m1), m2) == spec_complete(v, m1),
        spec_fail(spec_complete(v, m1), e1) == spec_complete(v, m1),
        spec_complete(spec_fail(v, e1), m1) == spec_fail(v, e1),
        spec_fail(spec_fail(v, e1), e2) == spec_fail(v, e1),
{
}

/// Every pipe target registered at resolution time is notified exactly once:
/// the resolution notifies each target once, in order, and afterwards no
/// target stays registered, so no later operation notifies it again.
pub proof fn lemma_pipes_notified_once(
    v: FutureView,
    m: MessageView,
    m2: MessageView,
    e: ActorFutureError,
)
    requires
        !v.done,
    ensures
        spec_resolution_sends(v, m).map_values(|s: (Pid, MessageView)| s.0) == v.pipes,
        spec_complete(v, m).pipes == Seq::<Pid>::empty(),
        spec_resolution_sends(spec_complete(v, m), m2) == Seq::<(Pid, MessageView)>::empty(),
        spec_resolution_sends(spec_fail(v, e), m2) == Seq::<(Pid, MessageView)>::empty(),
{
    assert(spec_resolution_sends(v, m).map_values(|s: (Pid, MessageView)| s.0) =~= v.pipes);
}

} // verus!
