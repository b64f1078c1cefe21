//! The actor system: registry, routing and the dispatch loop.
//!
//! The system owns every process: actor cells, future processes and the
//! dead-letter sink. Ids are assigned from a monotone counter and index the
//! process table directly; a removed or stopped process keeps its slot, and
//! traffic towards it is routed to the dead-letter topic.
//!
//! Everything the runtime cannot decide by itself — user `receive` bodies,
//! hook bodies, real time — is driven from outside: `run_next` hands user
//! messages out one delivery at a time, `escalate_failure` takes a failure
//! back in, and every time-dependent operation takes the current clock
//! reading as an argument.

use vstd::prelude::*;

use crate::actor_context::{ActorCell, CellEffect, InvocationEvent, Lifecycle};
use crate::future::{ActorFuture, ActorFutureError};
use crate::mailbox::{Mailbox, MailboxStatus, MailboxView};
use crate::message::{ActorError, EnvelopeView, MessageHandle, MessageView, SystemMessage, TerminateReason};
use crate::message_envelope::MessageEnvelope;
use crate::pid::{spec_local_address, Pid};
use crate::props::Props;

verus! {

/// An undeliverable message, published to the dead-letter topic.
#[derive(Debug)]
pub struct DeadLetterEvent {
    pub pid: Pid,
    pub message: MessageHandle,
    pub sender: Option<Pid>,
}

/// One entry of the process table.
pub enum ProcessSlot {
    /// A live or stopped actor.
    Actor(ActorCell),
    /// A request/response future and its optional deadline.
    Future(ActorFuture, Option<u64>),
    /// Removed from the registry; sends end up as dead letters.
    Removed,
}

/// Why a spawn failed.
#[derive(Debug)]
pub enum SpawnError {
    /// The name is taken; the pid of its owner is returned.
    ErrNameExists(Pid),
    /// The actor's pre-start hook failed; the half-created process is gone.
    ErrPreStart(ActorError),
}

/// The mailbox turn that is currently underway.
#[derive(Debug, Clone, Copy, PartialEq, Eq, Structural)]
pub struct TurnState {
    pub actor: u64,
    pub budget: usize,
}

/// What the driver must do after one engine step.
pub enum SystemStep {
    /// Run the actor's `receive` on this message, then report a failure via
    /// `escalate_failure` if it raised one.
    Deliver {
        target: Pid,
        message: MessageHandle,
        sender: Option<Pid>,
        headers: Option<crate::message_envelope::MessageHeaders>,
    },
    /// The engine made internal progress; call again.
    Working,
    /// Nothing is runnable.
    Idle,
}

/// One process-wide runtime.
pub struct ActorSystem {
    pub processes: Vec<ProcessSlot>,
    pub dead_letters: Vec<DeadLetterEvent>,
    pub run_queue: Vec<u64>,
    pub pending_sends: Vec<(Pid, MessageHandle)>,
    pub pending_callbacks: Vec<u64>,
    pub turn: Option<TurnState>,
}

/// The invariant of one process-table entry: an actor cell is internally
/// well formed, sits under its own id, is local, and neither its parent nor
/// any child is the cell itself.
pub open spec fn slot_wf(s: ProcessSlot, i: int) -> bool {
    match s {
        ProcessSlot::Actor(c) => {
            &&& c.wf()
            &&& c.self_pid.id == i
            &&& c.self_pid.address@ == spec_local_address()
            &&& match c.parent {
                Some(p) => p.id != c.self_pid.id,
                None => true,
            }
            &&& forall|k: int|
                0 <= k < c.children@.len() ==> c.children@[k].id != c.self_pid.id
        },
        ProcessSlot::Future(f, _) => f.wf(),
        ProcessSlot::Removed => true,
    }
}

impl ActorSystem {
    /// The system's invariant: every slot is well formed and a live turn
    /// points at an actor whose mailbox is processing.
    pub open spec fn wf(&self) -> bool {
        &&& forall|i: int|
            0 <= i < self.processes@.len() ==> slot_wf(#[trigger] self.processes@[i], i)
        &&& match self.turn {
            Some(t) => t.actor < self.processes@.len() && (match self.processes@[
                t.actor as int
            ] {
                ProcessSlot::Actor(c) => c.mailbox@.status is Processing,
                _ => false,
            }),
            None => true,
        }
    }

    /// A fresh system with an empty registry and dead-letter topic.
    pub fn new() -> (r: Self)
        ensures
            r.wf(),
            r.processes@.len() == 0,
            r.dead_letters@.len() == 0,
            r.run_queue@.len() == 0,
            r.pending_sends@.len() == 0,
            r.turn is None,
    {
        ActorSystem {
            processes: Vec::new(),
            dead_letters: Vec::new(),
            run_queue: Vec::new(),
            pending_sends: Vec::new(),
            pending_callbacks: Vec::new(),
            turn: None,
        }
    }

    /// The next id the registry will assign.
    pub fn next_id(&self) -> (r: u64)
        requires
            self.processes@.len() <= u64::MAX,
        ensures
            r == self.processes@.len(),
    {
        self.processes.len() as u64
    }

    /// How many ids the registry has assigned.
    pub fn process_count(&self) -> (r: usize)
        ensures
            r == self.processes@.len(),
    {
        self.processes.len()
    }

    /// The slot index a local pid id points at, if it is in range.
    fn slot_index(&self, id: u64) -> (r: Option<usize>)
        ensures
            match r {
                Some(i) => i as u64 == id && i < self.processes@.len(),
                None => id >= self.processes@.len(),
            },
    {
        let n = self.processes.len();
        if id < n as u64 {
            Some(id as usize)
        } else {
            None
        }
    }

    /// Read access to an actor's cell, for inspection.
    pub fn cell(&self, pid: &Pid) -> (r: Option<&ActorCell>)
        ensures
            match r {
                Some(c) => pid.id < self.processes@.len() && self.processes@[pid.id as int]
                    == ProcessSlot::Actor(*c),
                None => true,
            },
    {
        match self.slot_index(pid.id) {
            Some(i) => match &self.processes[i] {
                ProcessSlot::Actor(c) => Some(c),
                _ => None,
            },
            None => None,
        }
    }

    /// The sender a message carries, read without consuming the message.
    fn peek_sender(message: &MessageHandle) -> (r: Option<Pid>)
        ensures
            r == crate::message_envelope::spec_unwrap_sender(message@),
    {
        match message {
            MessageHandle::Envelope(e) => match &e.sender {
                Some(p) => Some(p.clone()),
                None => None,
            },
            _ => None,
        }
    }

    /// Publishes an undeliverable message to the dead-letter topic. If the
    /// message carried a sender, the sender is answered with a dead-letter
    /// response on the sink's behalf, so a waiting request can fail fast.
    fn to_dead_letters(&mut self, target: Pid, message: MessageHandle)
        requires
            old(self).wf(),
        ensures
            final(self).wf(),
            final(self).processes == old(self).processes,
            final(self).turn == old(self).turn,
            final(self).run_queue == old(self).run_queue,
            final(self).pending_callbacks == old(self).pending_callbacks,
            final(self).dead_letters@.len() == old(self).dead_letters@.len() + 1,
            final(self).dead_letters@.take(old(self).dead_letters@.len() as int) == old(self).dead_letters@,
            final(self).dead_letters@.last().pid == target,
            final(self).dead_letters@.last().message@ == message@,
            final(self).dead_letters@.last().sender
                == crate::message_envelope::spec_unwrap_sender(message@),
            final(self).pending_sends@ == (match crate::message_envelope::spec_unwrap_sender(
                message@,
            ) {
                Some(s) => old(self).pending_sends@.push(
                    (s, MessageHandle::DeadLetterResponse { target }),
                ),
                None => old(self).pending_sends@,
            }),
    {
        let sender = Self::peek_sender(&message);
        match &sender {
            Some(s) => {
                let reply_to = s.clone();
                let response = MessageHandle::DeadLetterResponse { target: target.clone() };
                self.pending_sends.push((reply_to, response));
            },
            None => (),
        }
        self.dead_letters.push(DeadLetterEvent { pid: target, message, sender });
        proof {
            assert(self.dead_letters@.take(old(self).dead_letters@.len() as int)
                =~= old(self).dead_letters@);
        }
    }
}

/// The actor cell registered under `id`, if any.
pub open spec fn actor_at(procs: Seq<ProcessSlot>, id: u64) -> Option<ActorCell> {
    if id < procs.len() {
        match procs[id as int] {
            ProcessSlot::Actor(c) => Some(c),
            _ => None,
        }
    } else {
        None
    }
}

/// The future registered under `id`, if any.
pub open spec fn future_at(procs: Seq<ProcessSlot>, id: u64) -> Option<ActorFuture> {
    if id < procs.len() {
        match procs[id as int] {
            ProcessSlot::Future(f, _) => Some(f),
            _ => None,
        }
    } else {
        None
    }
}

/// A user message towards `p` cannot be delivered: the pid is not local, was
/// never assigned, its process was removed, or its actor has stopped.
pub open spec fn is_dead_target(procs: Seq<ProcessSlot>, p: Pid) -> bool {
    ||| p.address@ != spec_local_address()
    ||| p.id >= procs.len()
    ||| procs[p.id as int] is Removed
    ||| (match procs[p.id as int] {
        ProcessSlot::Actor(c) => c.state is Stopped,
        _ => false,
    })
}

/// Some live actor is registered under this name.
pub open spec fn spec_name_taken(procs: Seq<ProcessSlot>, name: Seq<char>) -> bool {
    exists|i: int|
        0 <= i < procs.len() && (match #[trigger] procs[i] {
            ProcessSlot::Actor(c) => match c.name {
                Some(n) => n@ == name,
                None => false,
            },
            _ => false,
        })
}

/// The deadline attached to the process slot under `id`: `None` when no
/// future lives there, otherwise `Some` of the future's optional deadline.
pub open spec fn future_deadline_at(procs: Seq<ProcessSlot>, id: u64) -> Option<Option<u64>> {
    if id < procs.len() {
        match procs[id as int] {
            ProcessSlot::Future(_, d) => Some(d),
            _ => None,
        }
    } else {
        None
    }
}

/// Routing never rewrites an actor: across a routing step, every actor slot
/// stays an actor slot and keeps its lifecycle state, invocation history,
/// children and delivery histories. Only queues grow and latches move.
pub open spec fn cells_stable(pre: Seq<ProcessSlot>, post: Seq<ProcessSlot>) -> bool {
    &&& post.len() == pre.len()
    &&& forall|j: int|
        0 <= j < pre.len() ==> match (#[trigger] pre[j], post[j]) {
            (ProcessSlot::Actor(c), ProcessSlot::Actor(c2)) => {
                &&& c2.state == c.state
                &&& c2.invocations == c.invocations
                &&& c2.children == c.children
                &&& c2.mailbox@.delivered_users == c.mailbox@.delivered_users
                &&& c2.mailbox@.delivered_systems == c.mailbox@.delivered_systems
            },
            (ProcessSlot::Actor(_), _) => false,
            _ => true,
        }
}

/// Dispatch never un-delivers a message: every actor slot stays an actor
/// slot and keeps its delivery histories, though its lifecycle may move.
pub open spec fn histories_preserved(pre: Seq<ProcessSlot>, post: Seq<ProcessSlot>) -> bool {
    &&& post.len() == pre.len()
    &&& forall|j: int|
        0 <= j < pre.len() ==> match (#[trigger] pre[j], post[j]) {
            (ProcessSlot::Actor(c), ProcessSlot::Actor(c2)) => {
                &&& c2.mailbox@.delivered_users == c.mailbox@.delivered_users
                &&& c2.mailbox@.delivered_systems == c.mailbox@.delivered_systems
            },
            (ProcessSlot::Actor(_), _) => false,
            _ => true,
        }
}

/// As `histories_preserved`, but the actor under `id` is exempt: it is the
/// one whose turn is running and whose histories the step extends.
pub open spec fn histories_preserved_except(
    pre: Seq<ProcessSlot>,
    post: Seq<ProcessSlot>,
    id: u64,
) -> bool {
    &&& post.len() == pre.len()
    &&& forall|j: int|
        0 <= j < pre.len() && j != id ==> match (#[trigger] pre[j], post[j]) {
            (ProcessSlot::Actor(c), ProcessSlot::Actor(c2)) => {
                &&& c2.mailbox@.delivered_users == c.mailbox@.delivered_users
                &&& c2.mailbox@.delivered_systems == c.mailbox@.delivered_systems
            },
            (ProcessSlot::Actor(_), _) => false,
            _ => true,
        }
}

/// Cell stability composes across consecutive steps.
proof fn lemma_cells_stable_trans(a: Seq<ProcessSlot>, b: Seq<ProcessSlot>, c: Seq<ProcessSlot>)
    requires
        cells_stable(a, b),
        cells_stable(b, c),
    ensures
        cells_stable(a, c),
{
    assert forall|j: int| 0 <= j < a.len() implies match (#[trigger] a[j], c[j]) {
        (ProcessSlot::Actor(x), ProcessSlot::Actor(x2)) => {
            &&& x2.state == x.state
            &&& x2.invocations == x.invocations
            &&& x2.children == x.children
            &&& x2.mailbox@.delivered_users == x.mailbox@.delivered_users
            &&& x2.mailbox@.delivered_systems == x.mailbox@.delivered_systems
        },
        (ProcessSlot::Actor(_), _) => false,
        _ => true,
    } by {
        assert(match (a[j], b[j]) {
            (ProcessSlot::Actor(x), ProcessSlot::Actor(x2)) => x2.state == x.state,
            (ProcessSlot::Actor(_), _) => false,
            _ => true,
        });
    }
}

/// History preservation composes across consecutive steps.
proof fn lemma_histories_preserved_trans(
    a: Seq<ProcessSlot>,
    b: Seq<ProcessSlot>,
    c: Seq<ProcessSlot>,
)
    requires
        histories_preserved(a, b),
        histories_preserved(b, c),
    ensures
        histories_preserved(a, c),
{
    assert forall|j: int| 0 <= j < a.len() implies match (#[trigger] a[j], c[j]) {
        (ProcessSlot::Actor(x), ProcessSlot::Actor(x2)) => {
            &&& x2.mailbox@.delivered_users == x.mailbox@.delivered_users
            &&& x2.mailbox@.delivered_systems == x.mailbox@.delivered_systems
        },
        (ProcessSlot::Actor(_), _) => false,
        _ => true,
    } by {
        assert(match (a[j], b[j]) {
            (ProcessSlot::Actor(x), ProcessSlot::Actor(x2)) => x2.mailbox@.delivered_users
                == x.mailbox@.delivered_users,
            (ProcessSlot::Actor(_), _) => false,
            _ => true,
        });
    }
}

/// The effect of routing one user message to `target`, starting from the
/// registry, dead-letter topic, run queue, callback queue and turn of `pre`
/// and from the pending routing tasks `ps0`. A dead target turns the message
/// into a dead letter, answering a carried sender with a dead-letter
/// response; a live actor queues it — bounded mailboxes drop on overflow —
/// and is scheduled if its latch was idle; a future resolves with it, a
/// dead-letter response failing it and anything else completing it, its pipe
/// targets are notified and its continuations released.
pub open spec fn spec_routed_user(
    pre: ActorSystem,
    ps0: Seq<(Pid, MessageHandle)>,
    post: ActorSystem,
    target: Pid,
    message: MessageHandle,
) -> bool {
    &&& post.turn == pre.turn
    &&& post.processes@.len() == pre.processes@.len()
    &&& cells_stable(pre.processes@, post.processes@)
    &&& future_deadline_at(post.processes@, target.id) == future_deadline_at(
        pre.processes@,
        target.id,
    )
    &&& forall|j: int|
        0 <= j < pre.processes@.len() && j != target.id ==> post.processes@[j]
            == pre.processes@[j]
    &&& is_dead_target(pre.processes@, target) ==> {
        &&& post.processes == pre.processes
        &&& post.run_queue == pre.run_queue
        &&& post.pending_callbacks == pre.pending_callbacks
        &&& post.dead_letters@.len() == pre.dead_letters@.len() + 1
        &&& post.dead_letters@.take(pre.dead_letters@.len() as int) == pre.dead_letters@
        &&& post.dead_letters@.last().pid == target
        &&& post.dead_letters@.last().message@ == message@
        &&& post.dead_letters@.last().sender == crate::message_envelope::spec_unwrap_sender(
            message@,
        )
        &&& post.pending_sends@ == (match crate::message_envelope::spec_unwrap_sender(
            message@,
        ) {
            Some(snd) => ps0.push((snd, MessageHandle::DeadLetterResponse { target })),
            None => ps0,
        })
    }
    &&& !is_dead_target(pre.processes@, target) ==> post.dead_letters == pre.dead_letters
    &&& (match actor_at(pre.processes@, target.id) {
        Some(c) => target.address@ == spec_local_address() && c.state != Lifecycle::Stopped,
        None => false,
    }) ==> (match (actor_at(pre.processes@, target.id), actor_at(
        post.processes@,
        target.id,
    )) {
        (Some(c), Some(c2)) => {
            let accepted = match c.mailbox@.bound {
                Some(b) => c.mailbox@.user_messages.len() < b,
                None => true,
            };
            &&& c2.mailbox@ == (if accepted {
                MailboxView {
                    user_messages: c.mailbox@.user_messages.push(message),
                    posted_users: c.mailbox@.posted_users.push(message),
                    status: if c.mailbox@.status is Idle {
                        MailboxStatus::Scheduled
                    } else {
                        c.mailbox@.status
                    },
                    ..c.mailbox@
                }
            } else {
                c.mailbox@
            })
            &&& c2.invocations == c.invocations
            &&& c2.state == c.state
            &&& c2.children == c.children
            &&& post.run_queue@ == (if accepted && c.mailbox@.status is Idle {
                pre.run_queue@.push(target.id)
            } else {
                pre.run_queue@
            })
            &&& post.pending_sends@ == ps0
            &&& post.pending_callbacks == pre.pending_callbacks
        },
        _ => false,
    })
    &&& (match future_at(pre.processes@, target.id) {
        Some(f) => target.address@ == spec_local_address(),
        None => false,
    }) ==> (match (future_at(pre.processes@, target.id), future_at(
        post.processes@,
        target.id,
    )) {
        (Some(f), Some(f2)) => {
            let payload = (match message {
                MessageHandle::DeadLetterResponse { .. } => MessageView::FutureFault(
                    ActorFutureError::DeadLetterError,
                ),
                _ => message@,
            });
            &&& f2@ == (match message {
                MessageHandle::DeadLetterResponse { .. } => crate::future::spec_fail(
                    f@,
                    ActorFutureError::DeadLetterError,
                ),
                _ => crate::future::spec_complete(f@, message@),
            })
            &&& crate::future::sends_view(post.pending_sends@) == crate::future::sends_view(
                ps0,
            ) + crate::future::spec_resolution_sends(f@, payload)
            &&& post.pending_callbacks@ == pre.pending_callbacks@ + (if f@.done {
                Seq::<u64>::empty()
            } else {
                f@.completions
            })
            &&& post.run_queue == pre.run_queue
        },
        _ => false,
    })
}

/// One delivery of the dispatch loop: the head of the turn actor's user
/// queue is handed out with its envelope opened, the delivery and the
/// invocation are recorded, the turn budget shrinks by one, and the receive
/// timeout re-arms. A delivery happens only with the pending routing tasks
/// done, the system queue drained, the mailbox unsuspended and the actor
/// alive, and it touches nothing else in the system.
pub open spec fn spec_deliver_step(
    pre: ActorSystem,
    post: ActorSystem,
    target: Pid,
    message: MessageHandle,
    sender: Option<Pid>,
    headers: Option<crate::message_envelope::MessageHeaders>,
    now: u64,
) -> bool {
    &&& pre.pending_sends@.len() == 0
    &&& pre.turn matches Some(t) && t.actor == target.id && t.budget > 0
    &&& post.turn matches Some(t2) && t2.actor == target.id && t2.budget == pre.turn.unwrap().budget - 1
    &&& match (actor_at(pre.processes@, target.id), actor_at(post.processes@, target.id)) {
        (Some(c), Some(c2)) => {
            &&& c.state == Lifecycle::Alive
            &&& c.mailbox@.system_messages.len() == 0
            &&& !c.mailbox@.suspended
            &&& c.mailbox@.user_messages.len() > 0
            &&& message@ == crate::message_envelope::spec_unwrap_message(
                c.mailbox@.user_messages[0]@,
            )
            &&& sender == crate::message_envelope::spec_unwrap_sender(
                c.mailbox@.user_messages[0]@,
            )
            &&& crate::message::headers_view_opt(headers)
                == crate::message_envelope::spec_unwrap_header(c.mailbox@.user_messages[0]@)
            &&& c2.mailbox@ == (MailboxView {
                user_messages: c.mailbox@.user_messages.drop_first(),
                delivered_users: c.mailbox@.delivered_users.push(
                    c.mailbox@.user_messages[0],
                ),
                ..c.mailbox@
            })
            &&& c2.invocations@ == c.invocations@.push(InvocationEvent::UserMessage)
            &&& c2.state == Lifecycle::Alive
            &&& c2.children == c.children
            &&& c2.receive_timeout == c.receive_timeout
            &&& c2.timeout_deadline == (if c.receive_timeout > 0 {
                Some(crate::actor_context::spec_saturating_add(now, c.receive_timeout))
            } else {
                c.timeout_deadline
            })
        },
        _ => false,
    }
    &&& post.processes@.len() == pre.processes@.len()
    &&& forall|j: int|
        0 <= j < pre.processes@.len() && j != target.id ==> post.processes@[j]
            == pre.processes@[j]
    &&& post.pending_sends == pre.pending_sends
    &&& post.pending_callbacks == pre.pending_callbacks
    &&& post.dead_letters == pre.dead_letters
    &&& post.run_queue == pre.run_queue
}

/// An internal engine step that routed the oldest pending send, exactly as
/// `deliver_user_message` routes it.
pub open spec fn spec_step_route(pre: ActorSystem, post: ActorSystem) -> bool {
    &&& pre.pending_sends@.len() > 0
    &&& spec_routed_user(
        pre,
        pre.pending_sends@.drop_first(),
        post,
        pre.pending_sends@[0].0,
        pre.pending_sends@[0].1,
    )
}

/// An internal engine step that popped the run queue's head and, where its
/// mailbox was scheduled, claimed the latch and recorded the turn with the
/// mailbox's full throughput as budget.
pub open spec fn spec_step_claim(pre: ActorSystem, post: ActorSystem) -> bool {
    &&& pre.pending_sends@.len() == 0
    &&& pre.turn is None
    &&& pre.run_queue@.len() > 0
    &&& post.run_queue@ == pre.run_queue@.drop_first()
    &&& post.pending_sends == pre.pending_sends
    &&& post.pending_callbacks == pre.pending_callbacks
    &&& post.dead_letters == pre.dead_letters
    &&& {
        let id = pre.run_queue@[0];
        match actor_at(pre.processes@, id) {
            Some(c) => if c.mailbox@.status is Scheduled {
                &&& post.turn matches Some(t) && t.actor == id && t.budget
                    == c.mailbox@.throughput
                &&& post.processes@.len() == pre.processes@.len()
                &&& (match actor_at(post.processes@, id) {
                    Some(c2) => c2.mailbox@ == (MailboxView {
                        status: MailboxStatus::Processing,
                        ..c.mailbox@
                    }) && c2.invocations == c.invocations && c2.state == c.state
                        && c2.children == c.children,
                    None => false,
                })
                &&& forall|j: int|
                    0 <= j < pre.processes@.len() && j != id ==> post.processes@[j]
                        == pre.processes@[j]
            } else {
                post.turn is None && post.processes == pre.processes
            },
            None => post.turn is None && post.processes == pre.processes,
        }
    }
}

/// An internal engine step that consumed the oldest system message of the
/// turn actor's queue and dispatched it through the lifecycle machinery.
pub open spec fn spec_step_system(pre: ActorSystem, post: ActorSystem) -> bool {
    &&& pre.pending_sends@.len() == 0
    &&& pre.turn is Some
    &&& post.turn == pre.turn
    &&& post.processes@.len() == pre.processes@.len()
    &&& {
        let id = pre.turn.unwrap().actor;
        &&& (match (actor_at(pre.processes@, id), actor_at(post.processes@, id)) {
            (Some(c), Some(c2)) => c.mailbox@.system_messages.len() > 0
                && c2.mailbox@.delivered_systems == c.mailbox@.delivered_systems.push(
                c.mailbox@.system_messages[0],
            ),
            _ => false,
        })
        &&& histories_preserved_except(pre.processes@, post.processes@, id)
    }
}

/// An internal engine step that ended the running turn: with the system
/// queue drained and the budget spent, the actor no longer alive, the
/// mailbox suspended or no user message waiting, the latch is released and
/// the mailbox rescheduled exactly when unsuspended traffic waits.
pub open spec fn spec_step_end(pre: ActorSystem, post: ActorSystem) -> bool {
    &&& pre.pending_sends@.len() == 0
    &&& pre.turn is Some
    &&& post.turn is None
    &&& post.processes@.len() == pre.processes@.len()
    &&& post.pending_sends == pre.pending_sends
    &&& post.pending_callbacks == pre.pending_callbacks
    &&& post.dead_letters == pre.dead_letters
    &&& {
        let id = pre.turn.unwrap().actor;
        &&& (match (actor_at(pre.processes@, id), actor_at(post.processes@, id)) {
            (Some(c), Some(c2)) => {
                let resched = !c.mailbox@.suspended && c.mailbox@.user_messages.len() > 0;
                &&& c.mailbox@.system_messages.len() == 0
                &&& (pre.turn.unwrap().budget == 0 || c.state != Lifecycle::Alive
                    || c.mailbox@.suspended || c.mailbox@.user_messages.len() == 0)
                &&& c2.mailbox@ == (MailboxView {
                    status: if resched {
                        MailboxStatus::Scheduled
                    } else {
                        MailboxStatus::Idle
                    },
                    ..c.mailbox@
                })
                &&& c2.invocations == c.invocations
                &&& c2.state == c.state
                &&& c2.children == c.children
                &&& post.run_queue@ == (if resched {
                    pre.run_queue@.push(id)
                } else {
                    pre.run_queue@
                })
            },
            _ => false,
        })
        &&& forall|j: int|
            0 <= j < pre.processes@.len() && j != id ==> post.processes@[j]
                == pre.processes@[j]
    }
}

/// An internal engine step that consumed a poison pill at the head of the
/// turn actor's user queue: the delivery is recorded and the actor begins
/// its stop sequence, spending one unit of budget.
pub open spec fn spec_step_poison(pre: ActorSystem, post: ActorSystem) -> bool {
    &&& pre.pending_sends@.len() == 0
    &&& pre.turn matches Some(t) && t.budget > 0
    &&& post.turn matches Some(t2) && t2.actor == pre.turn.unwrap().actor && t2.budget
        == pre.turn.unwrap().budget - 1
    &&& post.processes@.len() == pre.processes@.len()
    &&& {
        let id = pre.turn.unwrap().actor;
        match (actor_at(pre.processes@, id), actor_at(post.processes@, id)) {
            (Some(c), Some(c2)) => {
                &&& c.state == Lifecycle::Alive
                &&& c.mailbox@.system_messages.len() == 0
                &&& !c.mailbox@.suspended
                &&& c.mailbox@.user_messages.len() > 0
                &&& crate::message_envelope::spec_unwrap_message(
                    c.mailbox@.user_messages[0]@,
                ) is PoisonPill
                &&& c2.mailbox@.delivered_users == c.mailbox@.delivered_users.push(
                    c.mailbox@.user_messages[0],
                )
                &&& (c.children@.len() > 0 ==> c2.state == Lifecycle::Stopping
                    && c2.invocations@ == c.invocations@.push(InvocationEvent::PreStop))
                &&& (c.children@.len() == 0 ==> c2.state == Lifecycle::Stopped
                    && c2.invocations@ == c.invocations@.push(InvocationEvent::PreStop).push(
                    InvocationEvent::PostStop,
                ))
            },
            _ => false,
        }
    }
}

/// One internal step of the dispatch loop, every form it can take. A
/// `Working` answer of `run_next` took exactly one of these.
pub open spec fn spec_working_step(pre: ActorSystem, post: ActorSystem) -> bool {
    ||| spec_step_route(pre, post)
    ||| spec_step_claim(pre, post)
    ||| spec_step_system(pre, post)
    ||| spec_step_end(pre, post)
    ||| spec_step_poison(pre, post)
}

/// `post` is reachable from `pre` by exactly `n` internal engine steps.
pub open spec fn spec_working_steps(pre: ActorSystem, post: ActorSystem, n: nat) -> bool
    decreases n,
{
    if n == 0 {
        post == pre
    } else {
        exists|mid: ActorSystem|
            spec_working_step(pre, mid) && spec_working_steps(mid, post, (n - 1) as nat)
    }
}

/// A chain of engine steps grows by one step at its end.
pub proof fn lemma_working_steps_snoc(a: ActorSystem, b: ActorSystem, c: ActorSystem, n: nat)
    requires
        spec_working_steps(a, b, n),
        spec_working_step(b, c),
    ensures
        spec_working_steps(a, c, n + 1),
    decreases n,
{
    if n == 0 {
        assert(spec_working_steps(c, c, 0));
        assert(spec_working_step(a, c));
    } else {
        let mid = choose|mid: ActorSystem|
            spec_working_step(a, mid) && spec_working_steps(mid, b, (n - 1) as nat);
        lemma_working_steps_snoc(mid, b, c, (n - 1) as nat);
        assert(spec_working_step(a, mid) && spec_working_steps(mid, c, n));
    }
}

/// What one clock advance to `now` does to one process slot. A live actor
/// whose armed receive-timeout deadline is due takes a timeout notice at
/// the back of its user queue — bound permitting — and is left with the
/// deadline re-armed one receive-timeout span after `now`; a future whose
/// deadline passed fails with a timeout and loses the deadline; every other
/// slot stays exactly as it was.
pub open spec fn spec_ticked_slot(pre: ProcessSlot, post: ProcessSlot, now: u64) -> bool {
    match (pre, post) {
        (ProcessSlot::Actor(c), ProcessSlot::Actor(c2)) => {
            let due = c.state is Alive && (c.timeout_deadline matches Some(d) && d <= now);
            if due {
                let accepted = match c.mailbox@.bound {
                    Some(b) => c.mailbox@.user_messages.len() < b,
                    None => true,
                };
                &&& c2.mailbox@ == (if accepted {
                    MailboxView {
                        user_messages: c.mailbox@.user_messages.push(
                            MessageHandle::ReceiveTimeout,
                        ),
                        posted_users: c.mailbox@.posted_users.push(
                            MessageHandle::ReceiveTimeout,
                        ),
                        status: if c.mailbox@.status is Idle {
                            MailboxStatus::Scheduled
                        } else {
                            c.mailbox@.status
                        },
                        ..c.mailbox@
                    }
                } else {
                    c.mailbox@
                })
                &&& c2.timeout_deadline == (if c.receive_timeout > 0 {
                    Some(crate::actor_context::spec_saturating_add(now, c.receive_timeout))
                } else {
                    None::<u64>
                })
                &&& c2 == (ActorCell {
                    mailbox: c2.mailbox,
                    timeout_deadline: c2.timeout_deadline,
                    ..c
                })
            } else {
                c2 == c
            }
        },
        (ProcessSlot::Future(f, d0), ProcessSlot::Future(f2, d1)) => {
            let due = d0 matches Some(d) && d <= now;
            if due {
                &&& (!f@.done ==> f2@ == crate::future::spec_fail(
                    f@,
                    ActorFutureError::TimeoutError,
                ))
                &&& (f@.done ==> f2 == f)
                &&& d1 is None
            } else {
                f2 == f && d1 == d0
            }
        },
        (ProcessSlot::Removed, ProcessSlot::Removed) => true,
        _ => false,
    }
}

impl ActorSystem {
    /// The id of the actor registered under `name`, if any.
    fn find_by_name(&self, name: &String) -> (r: Option<u64>)
        ensures
            match r {
                Some(id) => id < self.processes@.len() && (match self.processes@[id as int] {
                    ProcessSlot::Actor(c) => c.name matches Some(n) && n@ == name@,
                    _ => false,
                }),
                None => !spec_name_taken(self.processes@, name@),
            },
    {
        let mut i: usize = 0;
        while i < self.processes.len()
            invariant
                i <= self.processes@.len(),
                forall|j: int|
                    0 <= j < i ==> match #[trigger] self.processes@[j] {
                        ProcessSlot::Actor(c) => match c.name {
                            Some(n) => n@ != name@,
                            None => true,
                        },
                        _ => true,
                    },
            decreases self.processes@.len() - i,
        {
            match &self.processes[i] {
                ProcessSlot::Actor(c) => match &c.name {
                    Some(n) => if *n == *name {
                        return Some(i as u64);
                    },
                    None => (),
                },
                _ => (),
            }
            i = i + 1;
        }
        None
    }

    /// Posts a system message to the process behind `target`. A live actor
    /// takes it at the back of its system queue and is scheduled if idle; a
    /// stopped actor answers only a watch request, with an immediate
    /// termination notice; a future takes a termination notice as its
    /// resolution; anything else swallows the message.
    pub fn post_system_to(&mut self, target: &Pid, message: SystemMessage)
        requires
            old(self).wf(),
        ensures
            final(self).wf(),
            final(self).dead_letters == old(self).dead_letters,
            final(self).turn == old(self).turn,
            final(self).processes@.len() == old(self).processes@.len(),
            cells_stable(old(self).processes@, final(self).processes@),
            (match actor_at(old(self).processes@, target.id) {
                Some(c) => target.address@ == spec_local_address() && c.state
                    != Lifecycle::Stopped,
                None => false,
            }) ==> (match (actor_at(old(self).processes@, target.id), actor_at(
                final(self).processes@,
                target.id,
            )) {
                (Some(c), Some(c2)) => {
                    &&& c2.mailbox@ == (MailboxView {
                        system_messages: c.mailbox@.system_messages.push(message),
                        posted_systems: c.mailbox@.posted_systems.push(message),
                        status: if c.mailbox@.status is Idle {
                            MailboxStatus::Scheduled
                        } else {
                            c.mailbox@.status
                        },
                        ..c.mailbox@
                    })
                    &&& c2.invocations == c.invocations
                    &&& c2.state == c.state
                    &&& c2.children == c.children
                    &&& c2.watchers == c.watchers
                    &&& c2.restart_stats == c.restart_stats
                    &&& c2.timeout_deadline == c.timeout_deadline
                    &&& c2.receive_timeout == c.receive_timeout
                    &&& final(self).run_queue@ == (if c.mailbox@.status is Idle {
                        old(self).run_queue@.push(target.id)
                    } else {
                        old(self).run_queue@
                    })
                    &&& final(self).pending_sends == old(self).pending_sends
                    &&& final(self).pending_callbacks == old(self).pending_callbacks
                },
                _ => false,
            }),
            (match actor_at(old(self).processes@, target.id) {
                Some(c) => target.address@ == spec_local_address() && c.state
                    == Lifecycle::Stopped,
                None => false,
            }) ==> ({
                &&& final(self).processes == old(self).processes
                &&& final(self).run_queue == old(self).run_queue
                &&& final(self).pending_callbacks == old(self).pending_callbacks
                &&& final(self).pending_sends@ == (match message {
                    SystemMessage::Watch { watcher } => old(self).pending_sends@.push(
                        (
                            watcher,
                            MessageHandle::Terminated {
                                who: *target,
                                reason: TerminateReason::Stopped,
                            },
                        ),
                    ),
                    _ => old(self).pending_sends@,
                })
            }),
            (match future_at(old(self).processes@, target.id) {
                Some(f) => target.address@ == spec_local_address(),
                None => false,
            }) ==> (match (future_at(old(self).processes@, target.id), future_at(
                final(self).processes@,
                target.id,
            )) {
                (Some(f), Some(f2)) => {
                    &&& final(self).run_queue == old(self).run_queue
                    &&& future_deadline_at(final(self).processes@, target.id)
                        == future_deadline_at(old(self).processes@, target.id)
                    &&& (match message {
                        SystemMessage::Terminated { who, reason } => {
                            &&& f2@ == crate::future::spec_complete(
                                f@,
                                MessageView::Terminated { who, reason },
                            )
                            &&& crate::future::sends_view(final(self).pending_sends@)
                                == crate::future::sends_view(old(self).pending_sends@)
                                + crate::future::spec_resolution_sends(
                                f@,
                                MessageView::Terminated { who, reason },
                            )
                            &&& final(self).pending_callbacks@ == old(self).pending_callbacks@
                                + (if f@.done {
                                Seq::<u64>::empty()
                            } else {
                                f@.completions
                            })
                        },
                        _ => ({
                            &&& f2 == f
                            &&& final(self).pending_sends == old(self).pending_sends
                            &&& final(self).pending_callbacks == old(self).pending_callbacks
                        }),
                    })
                },
                _ => false,
            }),
            (target.address@ != spec_local_address() || target.id >= old(self).processes@.len()
                || old(self).processes@[target.id as int] is Removed) ==> *final(self) == *old(self),
            forall|j: int|
                0 <= j < old(self).processes@.len() && j != target.id ==> final(self).processes@[j] == old(self).processes@[j],
    {
        if !target.is_local() {
            return ;
        }
        let idx = match self.slot_index(target.id) {
            Some(i) => i,
            None => {
                return ;
            },
        };
        let kind: u8 = match &self.processes[idx] {
            ProcessSlot::Actor(c) => if matches!(c.state, Lifecycle::Stopped) {
                0
            } else {
                1
            },
            ProcessSlot::Future(..) => 2,
            ProcessSlot::Removed => 3,
        };
        if kind == 3 {
            return ;
        }
        if kind == 0 {
            match message {
                SystemMessage::Watch { watcher } => {
                    let who = target.clone();
                    self.pending_sends.push(
                        (
                            watcher,
                            MessageHandle::Terminated { who, reason: TerminateReason::Stopped },
                        ),
                    );
                },
                _ => (),
            }
            return ;
        }
        if kind == 1 {
            let mut schedule = false;
            match &mut self.processes[idx] {
                ProcessSlot::Actor(c) => {
                    schedule = c.mailbox.post_system_message(message);
                },
                _ => (),
            }
            if schedule {
                self.run_queue.push(target.id);
            }
            return ;
        }
        match message {
            SystemMessage::Terminated { who, reason } => {
                let mut fut_effects: Option<crate::future::FutureEffects> = None;
                match &mut self.processes[idx] {
                    ProcessSlot::Future(f, _) => {
                        fut_effects = Some(
                            f.send_system_message(MessageHandle::Terminated { who, reason }),
                        );
                    },
                    _ => (),
                }
                match fut_effects {
                    Some(mut e) => {
                        let ghost e_sends = e.sends@;
                        let ghost e_callbacks = e.callbacks@;
                        self.pending_sends.append(&mut e.sends);
                        self.pending_callbacks.append(&mut e.callbacks);
                        proof {
                            assert(crate::future::sends_view(
                                old(self).pending_sends@ + e_sends,
                            ) =~= crate::future::sends_view(old(self).pending_sends@)
                                + crate::future::sends_view(e_sends));
                            if e_callbacks.len() == 0 {
                                assert(self.pending_callbacks@
                                    =~= old(self).pending_callbacks@ + e_callbacks);
                            }
                        }
                    },
                    None => (),
                }
            },
            _ => (),
        }
    }

    /// Routes a user message to the process behind `target`. A live actor
    /// queues it — bounded mailboxes drop on overflow — and is scheduled if
    /// idle; a future resolves with it, a dead-letter response failing it and
    /// anything else completing it; a dead target sends the message to the
    /// dead-letter topic, answering a carried sender with a dead-letter
    /// response.
    pub fn deliver_user_message(&mut self, target: &Pid, message: MessageHandle)
        requires
            old(self).wf(),
        ensures
            final(self).wf(),
            spec_routed_user(
                *old(self),
                old(self).pending_sends@,
                *final(self),
                *target,
                message,
            ),
    {
        if !target.is_local() {
            self.to_dead_letters(target.clone(), message);
            return ;
        }
        let idx = match self.slot_index(target.id) {
            Some(i) => i,
            None => {
                self.to_dead_letters(target.clone(), message);
                return ;
            },
        };
        let kind: u8 = match &self.processes[idx] {
            ProcessSlot::Actor(c) => if matches!(c.state, Lifecycle::Stopped) {
                0
            } else {
                1
            },
            ProcessSlot::Future(..) => 2,
            ProcessSlot::Removed => 0,
        };
        if kind == 0 {
            self.to_dead_letters(target.clone(), message);
            return ;
        }
        if kind == 1 {
            let mut schedule = false;
            match &mut self.processes[idx] {
                ProcessSlot::Actor(c) => {
                    let out = c.mailbox.post_user_message(message);
                    schedule = out.accepted && out.schedule;
                },
                _ => (),
            }
            if schedule {
                self.run_queue.push(target.id);
            }
        } else {
            let mut fut_effects: Option<crate::future::FutureEffects> = None;
            match &mut self.processes[idx] {
                ProcessSlot::Future(f, _) => {
                    fut_effects = Some(f.send_user_message(message));
                },
                _ => (),
            }
            match fut_effects {
                Some(mut e) => {
                    let ghost e_sends = e.sends@;
                    let ghost e_callbacks = e.callbacks@;
                    self.pending_sends.append(&mut e.sends);
                    self.pending_callbacks.append(&mut e.callbacks);
                    proof {
                        assert(crate::future::sends_view(old(self).pending_sends@ + e_sends)
                            =~= crate::future::sends_view(old(self).pending_sends@)
                            + crate::future::sends_view(e_sends));
                        if e_callbacks.len() == 0 {
                            assert(self.pending_callbacks@
                                =~= old(self).pending_callbacks@ + e_callbacks);
                        }
                    }
                },
                None => (),
            }
        }
    }

    /// Carries out one queued routing task, oldest first: the oldest pending
    /// send is removed and routed exactly as `deliver_user_message` routes
    /// it. Returns whether anything was left to do.
    pub fn flush_one(&mut self) -> (did: bool)
        requires
            old(self).wf(),
        ensures
            final(self).wf(),
            did == (old(self).pending_sends@.len() > 0),
            final(self).processes@.len() == old(self).processes@.len(),
            final(self).turn == old(self).turn,
            !did ==> *final(self) == *old(self),
            did ==> spec_routed_user(
                *old(self),
                old(self).pending_sends@.drop_first(),
                *final(self),
                old(self).pending_sends@[0].0,
                old(self).pending_sends@[0].1,
            ),
    {
        if self.pending_sends.len() == 0 {
            return false;
        }
        let (target, message) = self.pending_sends.remove(0);
        proof {
            assert(self.pending_sends@ =~= old(self).pending_sends@.drop_first());
        }
        self.deliver_user_message(&target, message);
        true
    }

    /// Registers the freshly built cell, posts the start signal into its
    /// mailbox, schedules it and records it as a child of its parent.
    fn register_cell(&mut self, mut cell: ActorCell, parent: Option<&Pid>) -> (r: Pid)
        requires
            old(self).wf(),
            old(self).processes@.len() < usize::MAX,
            cell.wf(),
            cell.state == Lifecycle::Alive,
            cell.self_pid.id == old(self).processes@.len(),
            cell.self_pid.address@ == spec_local_address(),
            cell.children@.len() == 0,
            cell.mailbox@.status is Idle,
            cell.mailbox@.system_messages.len() == 0,
            cell.invocations@ == seq![InvocationEvent::PreStart],
            cell.parent == (match parent {
                Some(p) => Some(*p),
                None => None::<Pid>,
            }),
            match parent {
                Some(p) => p.id < old(self).processes@.len() && (match actor_at(
                    old(self).processes@,
                    p.id,
                ) {
                    Some(pc) => pc.state != Lifecycle::Stopped,
                    None => false,
                }) && p.address@ == spec_local_address(),
                None => true,
            },
        ensures
            final(self).wf(),
            r == cell.self_pid,
            final(self).processes@.len() == old(self).processes@.len() + 1,
            final(self).dead_letters == old(self).dead_letters,
            final(self).turn == old(self).turn,
            final(self).pending_callbacks == old(self).pending_callbacks,
            final(self).pending_sends == old(self).pending_sends,
            final(self).run_queue@ == old(self).run_queue@.push(r.id),
            (match actor_at(final(self).processes@, r.id) {
                Some(c2) => {
                    &&& c2.self_pid == cell.self_pid
                    &&& c2.name == cell.name
                    &&& c2.parent == cell.parent
                    &&& c2.state == Lifecycle::Alive
                    &&& c2.invocations@ == seq![InvocationEvent::PreStart]
                    &&& c2.mailbox@.system_messages == seq![SystemMessage::Start]
                    &&& c2.mailbox@.user_messages == cell.mailbox@.user_messages
                    &&& c2.mailbox@.status is Scheduled
                    &&& c2.strategy == cell.strategy
                },
                None => false,
            }),
            (match parent {
                Some(p) => match (actor_at(old(self).processes@, p.id), actor_at(
                    final(self).processes@,
                    p.id,
                )) {
                    (Some(pc), Some(pc2)) => pc2.children@ == pc.children@.push(cell.self_pid)
                        && pc2.invocations == pc.invocations && pc2.state == pc.state
                        && pc2.mailbox == pc.mailbox,
                    _ => false,
                },
                None => true,
            }),
            forall|j: int|
                0 <= j < old(self).processes@.len() && (match parent {
                    Some(p) => j != p.id,
                    None => true,
                }) ==> final(self).processes@[j] == old(self).processes@[j],
    {
        let id = cell.self_pid.id;
        let child_pid = cell.self_pid.clone();
        cell.mailbox.post_system_message(SystemMessage::Start);
        proof {
            assert(cell.mailbox@.system_messages =~= seq![SystemMessage::Start]);
        }
        self.processes.push(ProcessSlot::Actor(cell));
        self.run_queue.push(id);
        match parent {
            Some(p) => {
                let pidx = match self.slot_index(p.id) {
                    Some(i) => i,
                    None => {
                        return child_pid;
                    },
                };
                match &mut self.processes[pidx] {
                    ProcessSlot::Actor(pc) => {
                        pc.add_child(child_pid.clone());
                    },
                    _ => (),
                }
            },
            None => (),
        }
        child_pid
    }

    /// Spawns an anonymous actor from `props` under the given parent. The
    /// outcome of the actor's pre-start hook is handed in by the caller; a
    /// failed hook aborts the spawn and gives the half-created process up.
    pub fn spawn(
        &mut self,
        props: &Props,
        parent: Option<&Pid>,
        pre_start: Result<(), ActorError>,
    ) -> (r: Result<Pid, SpawnError>)
        requires
            old(self).wf(),
            props.wf(),
            old(self).processes@.len() < usize::MAX,
            match parent {
                Some(p) => (match actor_at(old(self).processes@, p.id) {
                    Some(pc) => pc.state != Lifecycle::Stopped,
                    None => false,
                }) && p.address@ == spec_local_address(),
                None => true,
            },
        ensures
            final(self).wf(),
            match pre_start {
                Err(e) => r matches Err(SpawnError::ErrPreStart(e2)) && e2 == e && final(self).processes@ == old(self).processes@.push(ProcessSlot::Removed) && final(self).run_queue == old(self).run_queue,
                Ok(()) => r matches Ok(pid) && pid.id == old(self).processes@.len()
                    && pid.address@ == spec_local_address() && final(self).processes@.len()
                    == old(self).processes@.len() + 1 && (match actor_at(
                    final(self).processes@,
                    pid.id,
                ) {
                    Some(c2) => {
                        &&& c2.state == Lifecycle::Alive
                        &&& c2.name is None
                        &&& c2.invocations@ == seq![InvocationEvent::PreStart]
                        &&& c2.mailbox@.system_messages == seq![SystemMessage::Start]
                        &&& c2.mailbox@.status is Scheduled
                        &&& c2.parent == (match parent {
                            Some(p) => Some(*p),
                            None => None::<Pid>,
                        })
                    },
                    None => false,
                }) && final(self).run_queue@ == old(self).run_queue@.push(
                    old(self).processes@.len() as u64,
                ) && (match parent {
                    Some(p) => match (actor_at(old(self).processes@, p.id), actor_at(
                        final(self).processes@,
                        p.id,
                    )) {
                        (Some(pc), Some(pc2)) => pc2.children@ == pc.children@.push(pid),
                        _ => false,
                    },
                    None => true,
                }) && final(self).pending_callbacks@ == old(self).pending_callbacks@
                    + props@.on_init,
            },
    {
        let id = self.processes.len() as u64;
        match pre_start {
            Err(e) => {
                self.processes.push(ProcessSlot::Removed);
                return Err(SpawnError::ErrPreStart(e));
            },
            Ok(()) => (),
        }
        let self_pid = Pid::local(id);
        let parent_pid = match parent {
            Some(p) => Some(p.clone()),
            None => None,
        };
        let cell = ActorCell::new(self_pid, None, parent_pid, props);
        let pid = self.register_cell(cell, parent);
        self.queue_init_hooks(props);
        Ok(pid)
    }

    /// Queues the props' init hooks for the driver to run, in order.
    fn queue_init_hooks(&mut self, props: &Props)
        requires
            old(self).wf(),
        ensures
            final(self).wf(),
            final(self).pending_callbacks@ == old(self).pending_callbacks@ + props@.on_init,
            *final(self) == (ActorSystem {
                pending_callbacks: final(self).pending_callbacks,
                ..*old(self)
            }),
    {
        let mut i: usize = 0;
        while i < props.on_init.len()
            invariant
                i <= props@.on_init.len(),
                self.pending_callbacks@ == old(self).pending_callbacks@ + props@.on_init.take(
                    i as int,
                ),
                *self == (ActorSystem {
                    pending_callbacks: self.pending_callbacks,
                    ..*old(self)
                }),
                old(self).wf(),
            decreases props@.on_init.len() - i,
        {
            proof {
                assert(props@.on_init.take(i + 1 as int) =~= props@.on_init.take(
                    i as int,
                ).push(props@.on_init[i as int]));
            }
            self.pending_callbacks.push(props.on_init[i]);
            i = i + 1;
        }
        proof {
            assert(props@.on_init.take(props@.on_init.len() as int) =~= props@.on_init);
            assert(self.pending_callbacks@ =~= old(self).pending_callbacks@ + props@.on_init);
        }
    }

    /// Spawns an actor from `props` under a unique `name`. A taken name
    /// fails the spawn with the pid of the name's owner; otherwise this is
    /// `spawn` with the name attached.
    pub fn spawn_named(
        &mut self,
        props: &Props,
        name: String,
        parent: Option<&Pid>,
        pre_start: Result<(), ActorError>,
    ) -> (r: Result<Pid, SpawnError>)
        requires
            old(self).wf(),
            props.wf(),
            old(self).processes@.len() < usize::MAX,
            match parent {
                Some(p) => (match actor_at(old(self).processes@, p.id) {
                    Some(pc) => pc.state != Lifecycle::Stopped,
                    None => false,
                }) && p.address@ == spec_local_address(),
                None => true,
            },
        ensures
            final(self).wf(),
            spec_name_taken(old(self).processes@, name@) ==> (r matches Err(
                SpawnError::ErrNameExists(p),
            ) && (match actor_at(old(self).processes@, p.id) {
                Some(c) => c.name matches Some(n) && n@ == name@,
                None => false,
            }) && *final(self) == *old(self)),
            !spec_name_taken(old(self).processes@, name@) ==> match pre_start {
                Err(e) => r matches Err(SpawnError::ErrPreStart(e2)) && e2 == e && final(self).processes@ == old(self).processes@.push(ProcessSlot::Removed),
                Ok(()) => r matches Ok(pid) && pid.id == old(self).processes@.len() && (
                match actor_at(final(self).processes@, pid.id) {
                    Some(c2) => {
                        &&& c2.state == Lifecycle::Alive
                        &&& c2.name matches Some(n) && n@ == name@
                        &&& c2.invocations@ == seq![InvocationEvent::PreStart]
                        &&& c2.mailbox@.system_messages == seq![SystemMessage::Start]
                        &&& c2.mailbox@.status is Scheduled
                    },
                    None => false,
                }) && (match parent {
                    Some(p) => match (actor_at(old(self).processes@, p.id), actor_at(
                        final(self).processes@,
                        p.id,
                    )) {
                        (Some(pc), Some(pc2)) => pc2.children@ == pc.children@.push(pid),
                        _ => false,
                    },
                    None => true,
                }) && final(self).pending_callbacks@ == old(self).pending_callbacks@
                    + props@.on_init,
            },
    {
        match self.find_by_name(&name) {
            Some(owner) => {
                let existing = Pid::local(owner);
                return Err(SpawnError::ErrNameExists(existing));
            },
            None => (),
        }
        let id = self.processes.len() as u64;
        match pre_start {
            Err(e) => {
                self.processes.push(ProcessSlot::Removed);
                return Err(SpawnError::ErrPreStart(e));
            },
            Ok(()) => (),
        }
        let self_pid = Pid::local(id);
        let parent_pid = match parent {
            Some(p) => Some(p.clone()),
            None => None,
        };
        let cell = ActorCell::new(self_pid, Some(name), parent_pid, props);
        let pid = self.register_cell(cell, parent);
        self.queue_init_hooks(props);
        Ok(pid)
    }

    /// Routes every message a lifecycle step produced: system notices go to
    /// mailboxes, user notices through the regular send path.
    fn apply_effects(&mut self, effects: Vec<CellEffect>)
        requires
            old(self).wf(),
        ensures
            final(self).wf(),
            final(self).processes@.len() == old(self).processes@.len(),
            final(self).turn == old(self).turn,
            cells_stable(old(self).processes@, final(self).processes@),
    {
        let mut rest = effects;
        while rest.len() > 0
            invariant
                self.wf(),
                self.processes@.len() == old(self).processes@.len(),
                self.turn == old(self).turn,
                cells_stable(old(self).processes@, self.processes@),
            decreases rest@.len(),
        {
            let e = rest.remove(0);
            let ghost prev = self.processes@;
            match e {
                CellEffect::SystemTo { target, message } => {
                    self.post_system_to(&target, message);
                },
                CellEffect::UserTo { target, message } => {
                    self.deliver_user_message(&target, message);
                },
            }
            proof {
                lemma_cells_stable_trans(old(self).processes@, prev, self.processes@);
            }
        }
    }

    /// Decides a child failure with the child's own strategy — or, for an
    /// actor at the top of the tree, its guardian strategy: the child is
    /// resumed, restarted or stopped, or the failure travels further up; an
    /// escalated failure with nowhere left to go stops the failing branch.
    fn supervise(
        &mut self,
        supervisor: u64,
        child: Pid,
        reason: ActorError,
        message: Box<MessageHandle>,
        now: u64,
    )
        requires
            old(self).wf(),
        ensures
            final(self).wf(),
            final(self).processes@.len() == old(self).processes@.len(),
            final(self).turn == old(self).turn,
            cells_stable(old(self).processes@, final(self).processes@),
            (match actor_at(old(self).processes@, child.id) {
                Some(c) => child.address@ == spec_local_address() && c.state
                    != Lifecycle::Stopped,
                None => false,
            }) ==> (match (actor_at(old(self).processes@, child.id), actor_at(
                final(self).processes@,
                child.id,
            )) {
                (Some(c), Some(c2)) => {
                    let strat = (if c.parent is None {
                        (match c.guardian {
                            Some(g) => g,
                            None => c.strategy,
                        })
                    } else {
                        c.strategy
                    });
                    let action = crate::strategy_one_for_one::spec_decision(
                        strat.decider,
                        strat.max_retries,
                        strat.within_duration_millis,
                        c.restart_stats@,
                        now,
                    );
                    &&& c2.mailbox@.suspended == c.mailbox@.suspended
                    &&& c2.restart_stats@ == crate::strategy_one_for_one::spec_stats_after(
                        strat.decider,
                        strat.max_retries,
                        strat.within_duration_millis,
                        c.restart_stats@,
                        now,
                    )
                    &&& (action == crate::strategy_one_for_one::SupervisorAction::ResumeChild
                        ==> c2.mailbox@.system_messages == c.mailbox@.system_messages.push(
                        SystemMessage::Resume,
                    ))
                    &&& (action == crate::strategy_one_for_one::SupervisorAction::RestartChild
                        ==> c2.mailbox@.system_messages == c.mailbox@.system_messages.push(
                        SystemMessage::Restart,
                    ))
                    &&& (action == crate::strategy_one_for_one::SupervisorAction::StopChild
                        ==> c2.mailbox@.system_messages == c.mailbox@.system_messages.push(
                        SystemMessage::Stop,
                    ))
                    &&& (action == crate::strategy_one_for_one::SupervisorAction::Escalate
                        && supervisor == child.id && c.parent is None
                        ==> c2.mailbox@.system_messages == c.mailbox@.system_messages.push(
                        SystemMessage::Stop,
                    ))
                },
                _ => false,
            }),
    {
        let cidx = match self.slot_index(child.id) {
            Some(i) => i,
            None => {
                return ;
            },
        };
        let mut action_opt: Option<crate::strategy_one_for_one::SupervisorAction> = None;
        match &mut self.processes[cidx] {
            ProcessSlot::Actor(cc) => {
                if !matches!(cc.state, Lifecycle::Stopped) {
                    let strat = if cc.parent.is_none() {
                        match cc.guardian {
                            Some(g) => g,
                            None => cc.strategy,
                        }
                    } else {
                        cc.strategy
                    };
                    action_opt = Some(strat.handle_failure(&mut cc.restart_stats, now));
                }
            },
            _ => (),
        }
        let action = match action_opt {
            Some(a) => a,
            None => {
                return ;
            },
        };
        match action {
            crate::strategy_one_for_one::SupervisorAction::ResumeChild => {
                self.post_system_to(&child, SystemMessage::Resume);
            },
            crate::strategy_one_for_one::SupervisorAction::RestartChild => {
                self.post_system_to(&child, SystemMessage::Restart);
            },
            crate::strategy_one_for_one::SupervisorAction::StopChild => {
                self.post_system_to(&child, SystemMessage::Stop);
            },
            crate::strategy_one_for_one::SupervisorAction::Escalate => {
                let sidx = match self.slot_index(supervisor) {
                    Some(i) => i,
                    None => {
                        return ;
                    },
                };
                let mut up: Option<(Pid, Option<Pid>)> = None;
                match &self.processes[sidx] {
                    ProcessSlot::Actor(pc) => {
                        let own = pc.self_pid.clone();
                        let gp = match &pc.parent {
                            Some(g) => Some(g.clone()),
                            None => None,
                        };
                        up = Some((own, gp));
                    },
                    _ => (),
                }
                match up {
                    Some((own, Some(grand))) => {
                        self.post_system_to(
                            &grand,
                            SystemMessage::Failure { child: own, reason, message },
                        );
                    },
                    Some((own, None)) => {
                        self.post_system_to(&own, SystemMessage::Stop);
                    },
                    None => (),
                }
            },
        }
    }

    /// The stop signal: begins the stop sequence of a live actor under
    /// `idx` and routes what it produced.
    fn dispatch_stop(&mut self, idx: usize)
        requires
            old(self).wf(),
            idx < old(self).processes@.len(),
        ensures
            final(self).wf(),
            final(self).processes@.len() == old(self).processes@.len(),
            final(self).turn == old(self).turn,
            histories_preserved(old(self).processes@, final(self).processes@),
    {
        let mut effects_opt: Option<Vec<CellEffect>> = None;
        match &mut self.processes[idx] {
            ProcessSlot::Actor(c) => {
                if matches!(c.state, Lifecycle::Alive) || matches!(
                    c.state,
                    Lifecycle::Restarting,
                ) {
                    effects_opt = Some(c.begin_stop());
                }
            },
            _ => (),
        }
        let ghost mid = self.processes@;
        match effects_opt {
            Some(effects) => self.apply_effects(effects),
            None => (),
        }
        proof {
            assert(histories_preserved(old(self).processes@, mid));
            assert(histories_preserved(mid, self.processes@));
            lemma_histories_preserved_trans(old(self).processes@, mid, self.processes@);
        }
    }

    /// The restart order: suspends and recreates a live actor under `idx`
    /// and routes what it produced.
    fn dispatch_restart(&mut self, idx: usize)
        requires
            old(self).wf(),
            idx < old(self).processes@.len(),
        ensures
            final(self).wf(),
            final(self).processes@.len() == old(self).processes@.len(),
            final(self).turn == old(self).turn,
            histories_preserved(old(self).processes@, final(self).processes@),
    {
        let mut effects_opt: Option<Vec<CellEffect>> = None;
        match &mut self.processes[idx] {
            ProcessSlot::Actor(c) => {
                if matches!(c.state, Lifecycle::Alive) {
                    effects_opt = Some(c.begin_restart());
                }
            },
            _ => (),
        }
        let ghost mid = self.processes@;
        match effects_opt {
            Some(effects) => self.apply_effects(effects),
            None => (),
        }
        proof {
            assert(histories_preserved(old(self).processes@, mid));
            assert(histories_preserved(mid, self.processes@));
            lemma_histories_preserved_trans(old(self).processes@, mid, self.processes@);
        }
    }

    /// The notice that a child of the actor under `idx` is gone: the child
    /// leaves the children set, a waiting stop or restart completes, and
    /// what it produced is routed.
    fn dispatch_terminated(&mut self, idx: usize, who: Pid)
        requires
            old(self).wf(),
            idx < old(self).processes@.len(),
        ensures
            final(self).wf(),
            final(self).processes@.len() == old(self).processes@.len(),
            final(self).turn == old(self).turn,
            histories_preserved(old(self).processes@, final(self).processes@),
    {
        let mut effects_opt: Option<Vec<CellEffect>> = None;
        match &mut self.processes[idx] {
            ProcessSlot::Actor(c) => {
                if !matches!(c.state, Lifecycle::Stopped) {
                    effects_opt = Some(c.on_child_terminated(&who));
                }
            },
            _ => (),
        }
        let ghost mid = self.processes@;
        match effects_opt {
            Some(effects) => self.apply_effects(effects),
            None => (),
        }
        proof {
            assert(histories_preserved(old(self).processes@, mid));
            assert(histories_preserved(mid, self.processes@));
            lemma_histories_preserved_trans(old(self).processes@, mid, self.processes@);
        }
    }

    /// The invoker's system-message dispatch: drives the lifecycle state
    /// machine of the actor under `id` and routes whatever it produces.
    fn handle_system_message(&mut self, id: u64, sm: SystemMessage, now: u64)
        requires
            old(self).wf(),
        ensures
            final(self).wf(),
            final(self).processes@.len() == old(self).processes@.len(),
            final(self).turn == old(self).turn,
            histories_preserved(old(self).processes@, final(self).processes@),
    {
        let idx = match self.slot_index(id) {
            Some(i) => i,
            None => {
                return ;
            },
        };
        match sm {
            SystemMessage::Start => (),
            SystemMessage::Restarting => (),
            SystemMessage::Stop => {
                self.dispatch_stop(idx);
            },
            SystemMessage::Restart => {
                self.dispatch_restart(idx);
            },
            SystemMessage::Suspend => {
                match &mut self.processes[idx] {
                    ProcessSlot::Actor(c) => c.mailbox.suspend(),
                    _ => (),
                }
            },
            SystemMessage::Resume => {
                match &mut self.processes[idx] {
                    ProcessSlot::Actor(c) => c.mailbox.resume(),
                    _ => (),
                }
            },
            SystemMessage::Watch { watcher } => {
                let mut reply: Option<(Pid, Pid)> = None;
                match &mut self.processes[idx] {
                    ProcessSlot::Actor(c) => {
                        if matches!(c.state, Lifecycle::Stopped) {
                            let who = c.self_pid.clone();
                            reply = Some((watcher, who));
                        } else {
                            c.add_watcher(watcher);
                        }
                    },
                    _ => (),
                }
                match reply {
                    Some((w, who)) => {
                        self.pending_sends.push(
                            (
                                w,
                                MessageHandle::Terminated {
                                    who,
                                    reason: TerminateReason::Stopped,
                                },
                            ),
                        );
                    },
                    None => (),
                }
            },
            SystemMessage::Unwatch { watcher } => {
                match &mut self.processes[idx] {
                    ProcessSlot::Actor(c) => c.remove_watcher(watcher),
                    _ => (),
                }
            },
            SystemMessage::Terminated { who, reason } => {
                self.dispatch_terminated(idx, who);
            },
            SystemMessage::Failure { child, reason, message } => {
                self.supervise(id, child, reason, message, now);
            },
        }
    }

    /// Catches a failure that user code raised while the actor under
    /// `child` handled `message`: the failing mailbox is suspended and the
    /// failure travels to the parent as a system message — or, with no
    /// parent, is decided on the spot by the actor's own strategy.
    pub fn escalate_failure(&mut self, child: &Pid, reason: ActorError, message: MessageHandle, now: u64)
        requires
            old(self).wf(),
        ensures
            final(self).wf(),
            final(self).processes@.len() == old(self).processes@.len(),
            final(self).turn == old(self).turn,
            (match actor_at(old(self).processes@, child.id) {
                Some(c) => c.state != Lifecycle::Stopped && (match c.parent {
                    Some(p) => (match actor_at(old(self).processes@, p.id) {
                        Some(pc) => p.address@ == spec_local_address() && pc.state
                            != Lifecycle::Stopped,
                        None => false,
                    }),
                    None => false,
                }),
                None => false,
            }) ==> (match (actor_at(old(self).processes@, child.id), actor_at(
                final(self).processes@,
                child.id,
            )) {
                (Some(c), Some(c2)) => c2.mailbox@.suspended && (match (c.parent, actor_at(
                    old(self).processes@,
                    c.parent.unwrap().id,
                ), actor_at(final(self).processes@, c.parent.unwrap().id)) {
                    (Some(p), Some(pc), Some(pc2)) => pc2.mailbox@.system_messages.len()
                        == pc.mailbox@.system_messages.len() + 1
                        && (pc2.mailbox@.system_messages.last() matches SystemMessage::Failure {
                        child: fc,
                        reason: fr,
                        ..
                    } && fc == c.self_pid && fr == reason),
                    _ => false,
                }),
                _ => false,
            }),
            (match actor_at(old(self).processes@, child.id) {
                Some(c) => c.state != Lifecycle::Stopped && c.parent is None,
                None => false,
            }) ==> (match (actor_at(old(self).processes@, child.id), actor_at(
                final(self).processes@,
                child.id,
            )) {
                (Some(c), Some(c2)) => {
                    let strat = (match c.guardian {
                        Some(g) => g,
                        None => c.strategy,
                    });
                    let action = crate::strategy_one_for_one::spec_decision(
                        strat.decider,
                        strat.max_retries,
                        strat.within_duration_millis,
                        c.restart_stats@,
                        now,
                    );
                    &&& c2.mailbox@.suspended
                    &&& c2.restart_stats@ == crate::strategy_one_for_one::spec_stats_after(
                        strat.decider,
                        strat.max_retries,
                        strat.within_duration_millis,
                        c.restart_stats@,
                        now,
                    )
                    &&& (action == crate::strategy_one_for_one::SupervisorAction::ResumeChild
                        ==> c2.mailbox@.system_messages == c.mailbox@.system_messages.push(
                        SystemMessage::Resume,
                    ))
                    &&& (action == crate::strategy_one_for_one::SupervisorAction::RestartChild
                        ==> c2.mailbox@.system_messages == c.mailbox@.system_messages.push(
                        SystemMessage::Restart,
                    ))
                    &&& ((action == crate::strategy_one_for_one::SupervisorAction::StopChild
                        || action == crate::strategy_one_for_one::SupervisorAction::Escalate)
                        ==> c2.mailbox@.system_messages == c.mailbox@.system_messages.push(
                        SystemMessage::Stop,
                    ))
                },
                _ => false,
            }),
    {
        let idx = match self.slot_index(child.id) {
            Some(i) => i,
            None => {
                return ;
            },
        };
        let mut parent: Option<Pid> = None;
        let mut child_pid: Option<Pid> = None;
        let mut live = false;
        match &mut self.processes[idx] {
            ProcessSlot::Actor(c) => {
                if !matches!(c.state, Lifecycle::Stopped) {
                    live = true;
                    c.mailbox.suspend();
                    child_pid = Some(c.self_pid.clone());
                    parent = match &c.parent {
                        Some(p) => Some(p.clone()),
                        None => None,
                    };
                }
            },
            _ => (),
        }
        if !live {
            return ;
        }
        let own = match child_pid {
            Some(p) => p,
            None => {
                return ;
            },
        };
        match parent {
            Some(p) => {
                self.post_system_to(
                    &p,
                    SystemMessage::Failure {
                        child: own,
                        reason,
                        message: Box::new(message),
                    },
                );
            },
            None => {
                self.supervise(child.id, own, reason, Box::new(message), now);
            },
        }
    }

    /// Ends the running turn: the latch is released and the mailbox is
    /// rescheduled at once if traffic is waiting.
    fn end_turn(&mut self, id: u64, idx: usize)
        requires
            old(self).wf(),
            idx as u64 == id,
            idx < old(self).processes@.len(),
            old(self).processes@[idx as int] matches ProcessSlot::Actor(c) && c.mailbox@.status
                is Processing,
        ensures
            final(self).wf(),
            final(self).turn is None,
            final(self).processes@.len() == old(self).processes@.len(),
            final(self).pending_sends == old(self).pending_sends,
            final(self).pending_callbacks == old(self).pending_callbacks,
            final(self).dead_letters == old(self).dead_letters,
            forall|j: int|
                0 <= j < old(self).processes@.len() && j != idx ==> final(self).processes@[j]
                    == old(self).processes@[j],
            match (old(self).processes@[idx as int], final(self).processes@[idx as int]) {
                (ProcessSlot::Actor(c), ProcessSlot::Actor(c2)) => {
                    let resched = c.mailbox@.system_messages.len() > 0 || (
                    !c.mailbox@.suspended && c.mailbox@.user_messages.len() > 0);
                    &&& c2.mailbox@ == (MailboxView {
                        status: if resched {
                            MailboxStatus::Scheduled
                        } else {
                            MailboxStatus::Idle
                        },
                        ..c.mailbox@
                    })
                    &&& c2.invocations == c.invocations
                    &&& c2.state == c.state
                    &&& c2.children == c.children
                    &&& final(self).run_queue@ == (if resched {
                        old(self).run_queue@.push(id)
                    } else {
                        old(self).run_queue@
                    })
                },
                _ => false,
            },
    {
        let mut resched = false;
        match &mut self.processes[idx] {
            ProcessSlot::Actor(c) => {
                resched = c.mailbox.end_turn();
            },
            _ => (),
        }
        self.turn = None;
        if resched {
            self.run_queue.push(id);
        }
    }

    /// One step of the dispatch loop. Queued routing work runs first; then
    /// the live turn makes progress: system messages are drained one per
    /// step, and once they are gone, up to the throughput bound of user
    /// messages are handed out, each as a `Deliver` the driver must run.
    /// With no live turn the next scheduled mailbox claims one.
    ///
    /// A delivery hands out the head of the turn actor's user queue — with
    /// envelopes opened — and records the invocation, so deliveries follow
    /// the posting order of the queue.
    pub fn run_next(&mut self, now: u64) -> (step: SystemStep)
        requires
            old(self).wf(),
        ensures
            final(self).wf(),
            step is Idle ==> *final(self) == *old(self) && old(self).turn is None && old(
                self,
            ).run_queue@.len() == 0 && old(self).pending_sends@.len() == 0,
            step matches SystemStep::Deliver { target, message, sender, headers }
                ==> spec_deliver_step(
                *old(self),
                *final(self),
                target,
                message,
                sender,
                headers,
                now,
            ),
            step is Working ==> spec_working_step(*old(self), *final(self)),
    {
        if self.pending_sends.len() > 0 {
            self.flush_one();
            proof {
                assert(spec_step_route(*old(self), *self));
            }
            return SystemStep::Working;
        }
        let t = match &self.turn {
            Some(t) => *t,
            None => {
                if self.run_queue.len() == 0 {
                    return SystemStep::Idle;
                }
                let id = self.run_queue.remove(0);
                proof {
                    assert(self.run_queue@ =~= old(self).run_queue@.drop_first());
                }
                let idx = match self.slot_index(id) {
                    Some(i) => i,
                    None => {
                        proof {
                            assert(spec_step_claim(*old(self), *self));
                        }
                        return SystemStep::Working;
                    },
                };
                let mut scheduled = false;
                match &self.processes[idx] {
                    ProcessSlot::Actor(c) => {
                        scheduled = matches!(c.mailbox.status, MailboxStatus::Scheduled);
                    },
                    _ => (),
                }
                if !scheduled {
                    proof {
                        assert(spec_step_claim(*old(self), *self));
                    }
                    return SystemStep::Working;
                }
                let mut throughput: Option<usize> = None;
                match &mut self.processes[idx] {
                    ProcessSlot::Actor(c) => {
                        c.mailbox.begin_turn();
                        throughput = Some(c.mailbox.get_throughput());
                    },
                    _ => (),
                }
                match throughput {
                    Some(budget) => {
                        self.turn = Some(TurnState { actor: id, budget });
                    },
                    None => (),
                }
                proof {
                    assert(spec_step_claim(*old(self), *self));
                }
                return SystemStep::Working;
            },
        };
        let id = t.actor;
        let idx = match self.slot_index(id) {
            Some(i) => i,
            None => {
                proof {
                    assert(false);
                }
                return SystemStep::Working;
            },
        };
        let mut sys_msg: Option<SystemMessage> = None;
        match &mut self.processes[idx] {
            ProcessSlot::Actor(c) => {
                sys_msg = c.mailbox.pop_system();
            },
            _ => (),
        }
        match sys_msg {
            Some(sm) => {
                let ghost mid = self.processes@;
                self.handle_system_message(id, sm, now);
                proof {
                    assert forall|j: int|
                        0 <= j < old(self).processes@.len() && j != id implies (match (
                        #[trigger] old(self).processes@[j],
                        self.processes@[j],
                    ) {
                        (ProcessSlot::Actor(c), ProcessSlot::Actor(c2)) => {
                            &&& c2.mailbox@.delivered_users == c.mailbox@.delivered_users
                            &&& c2.mailbox@.delivered_systems
                                == c.mailbox@.delivered_systems
                        },
                        (ProcessSlot::Actor(_), _) => false,
                        _ => true,
                    }) by {
                        assert(old(self).processes@[j] == mid[j]);
                    }
                    assert(spec_step_system(*old(self), *self));
                }
                return SystemStep::Working;
            },
            None => (),
        }
        let mut end = t.budget == 0;
        match &self.processes[idx] {
            ProcessSlot::Actor(c) => {
                if !matches!(c.state, Lifecycle::Alive) || c.mailbox.is_suspended() {
                    end = true;
                }
            },
            _ => {
                end = true;
            },
        }
        if end {
            self.end_turn(id, idx);
            proof {
                assert(spec_step_end(*old(self), *self));
            }
            return SystemStep::Working;
        }
        let mut delivery: Option<MessageHandle> = None;
        match &mut self.processes[idx] {
            ProcessSlot::Actor(c) => {
                delivery = c.mailbox.pop_user();
            },
            _ => (),
        }
        let m = match delivery {
            Some(m) => m,
            None => {
                self.end_turn(id, idx);
                proof {
                    assert(spec_step_end(*old(self), *self));
                }
                return SystemStep::Working;
            },
        };
        let (headers, payload, sender) = crate::message_envelope::unwrap_envelope(m);
        if matches!(payload, MessageHandle::PoisonPill) {
            let mut effects_opt: Option<Vec<CellEffect>> = None;
            match &mut self.processes[idx] {
                ProcessSlot::Actor(c) => {
                    effects_opt = Some(c.begin_stop());
                },
                _ => (),
            }
            match effects_opt {
                Some(effects) => self.apply_effects(effects),
                None => (),
            }
            self.turn = Some(TurnState { actor: id, budget: t.budget - 1 });
            proof {
                assert(spec_step_poison(*old(self), *self));
            }
            return SystemStep::Working;
        }
        let mut target_opt: Option<Pid> = None;
        match &mut self.processes[idx] {
            ProcessSlot::Actor(c) => {
                c.record_user_delivery(now);
                target_opt = Some(c.self_pid.clone());
            },
            _ => (),
        }
        let target = match target_opt {
            Some(p) => p,
            None => {
                proof {
                    assert(false);
                }
                return SystemStep::Working;
            },
        };
        self.turn = Some(TurnState { actor: id, budget: t.budget - 1 });
        proof {
            assert(slot_wf(old(self).processes@[idx as int], idx as int));
            assert(target.id == id);
            assert(spec_deliver_step(*old(self), *self, target, payload, sender, headers, now));
        }
        SystemStep::Deliver { target, message: payload, sender, headers }
    }

    /// Runs engine steps until a delivery is due or nothing is runnable,
    /// giving up after `fuel` steps. Whatever comes back, the new state is
    /// reached from the old one by a chain of at most `fuel` internal steps
    /// — so with `fuel == 0` nothing moves — and a delivery relates the
    /// chain's end to the final state exactly as `run_next` relates them.
    pub fn run(&mut self, now: u64, fuel: u64) -> (step: SystemStep)
        requires
            old(self).wf(),
        ensures
            final(self).wf(),
            step is Idle ==> final(self).turn is None && final(self).run_queue@.len() == 0
                && final(self).pending_sends@.len() == 0,
            step is Idle ==> exists|n: nat|
                n <= fuel && spec_working_steps(*old(self), *final(self), n),
            step is Working ==> spec_working_steps(*old(self), *final(self), fuel as nat),
            step matches SystemStep::Deliver { target, message, sender, headers } ==> exists|
                n: nat,
                mid: ActorSystem,
            |
                n < fuel && spec_working_steps(*old(self), mid, n) && mid.wf()
                    && spec_deliver_step(mid, *final(self), target, message, sender, headers, now),
    {
        let mut left = fuel;
        let ghost mut steps: nat = 0;
        while left > 0
            invariant
                self.wf(),
                steps + left == fuel,
                spec_working_steps(*old(self), *self, steps),
            decreases left,
        {
            let ghost pre_step = *self;
            let step = self.run_next(now);
            match step {
                SystemStep::Working => {
                    proof {
                        lemma_working_steps_snoc(*old(self), pre_step, *self, steps);
                        steps = steps + 1;
                    }
                },
                SystemStep::Idle => {
                    proof {
                        assert(spec_working_steps(*old(self), *self, steps));
                    }
                    return SystemStep::Idle;
                },
                SystemStep::Deliver { target, message, sender, headers } => {
                    proof {
                        assert(spec_working_steps(*old(self), pre_step, steps) && pre_step.wf()
                            && spec_deliver_step(
                            pre_step,
                            *self,
                            target,
                            message,
                            sender,
                            headers,
                            now,
                        ));
                    }
                    return SystemStep::Deliver { target, message, sender, headers };
                },
            }
            left = left - 1;
        }
        SystemStep::Working
    }

    /// Sends a user message to `target`: a live actor queues it and is
    /// scheduled if idle, a future resolves with it, and an unreachable
    /// target turns it into a dead letter.
    pub fn send(&mut self, target: &Pid, message: MessageHandle)
        requires
            old(self).wf(),
        ensures
            final(self).wf(),
            spec_routed_user(
                *old(self),
                old(self).pending_sends@,
                *final(self),
                *target,
                message,
            ),
    {
        self.deliver_user_message(target, message);
    }

    /// Sends `message` to `target` with `sender` attached, so the target
    /// can reply.
    pub fn request(&mut self, target: &Pid, message: MessageHandle, sender: &Pid)
        requires
            old(self).wf(),
        ensures
            final(self).wf(),
            is_dead_target(old(self).processes@, *target) ==> final(self).dead_letters@.len() == old(self).dead_letters@.len() + 1 && final(self).pending_sends@ == old(self).pending_sends@.push(
                (*sender, MessageHandle::DeadLetterResponse { target: *target }),
            ),
            (match actor_at(old(self).processes@, target.id) {
                Some(c) => target.address@ == spec_local_address() && c.state
                    != Lifecycle::Stopped && (match c.mailbox@.bound {
                    Some(b) => c.mailbox@.user_messages.len() < b,
                    None => true,
                }),
                None => false,
            }) ==> (match (actor_at(old(self).processes@, target.id), actor_at(
                final(self).processes@,
                target.id,
            )) {
                (Some(c), Some(c2)) => c2.mailbox@.user_messages.len()
                    == c.mailbox@.user_messages.len() + 1
                    && c2.mailbox@.user_messages.last()@ == (MessageView::Envelope(
                    EnvelopeView {
                        header: None,
                        message: Box::new(message@),
                        sender: Some(*sender),
                    },
                )),
                _ => false,
            }),
    {
        let envelope = MessageEnvelope::new(message).with_sender(sender.clone());
        self.deliver_user_message(target, MessageHandle::Envelope(Box::new(envelope)));
    }

    /// Creates a future process, registers it, and sends `message` to
    /// `target` with the future as the sender: the target's reply — or the
    /// dead-letter response if the target is gone — resolves the future. A
    /// non-zero `timeout` arms a deadline of `now + timeout` on the slot;
    /// zero leaves the future without one.
    pub fn request_future(
        &mut self,
        target: &Pid,
        message: MessageHandle,
        timeout: u64,
        now: u64,
    ) -> (r: Pid)
        requires
            old(self).wf(),
            old(self).processes@.len() < usize::MAX,
        ensures
            final(self).wf(),
            r.id == old(self).processes@.len(),
            r.address@ == spec_local_address(),
            final(self).processes@.len() >= old(self).processes@.len() + 1,
            future_deadline_at(final(self).processes@, r.id) == Some(
                if timeout > 0 {
                    Some(crate::actor_context::spec_saturating_add(now, timeout))
                } else {
                    None::<u64>
                },
            ),
            target.id != r.id ==> (match future_at(final(self).processes@, r.id) {
                Some(f) => !f@.done && f@.pid == Some(r) && f@.pipes.len() == 0
                    && f@.completions.len() == 0,
                None => false,
            }),
            (target.id != r.id && (match actor_at(old(self).processes@, target.id) {
                Some(c) => target.address@ == spec_local_address() && c.state
                    != Lifecycle::Stopped && (match c.mailbox@.bound {
                    Some(b) => c.mailbox@.user_messages.len() < b,
                    None => true,
                }),
                None => false,
            })) ==> (match (actor_at(old(self).processes@, target.id), actor_at(
                final(self).processes@,
                target.id,
            )) {
                (Some(c), Some(c2)) => c2.mailbox@.user_messages.len()
                    == c.mailbox@.user_messages.len() + 1
                    && c2.mailbox@.user_messages.last()@ == (MessageView::Envelope(
                    EnvelopeView {
                        header: None,
                        message: Box::new(message@),
                        sender: Some(r),
                    },
                )),
                _ => false,
            }),
    {
        let id = self.processes.len() as u64;
        let fpid = Pid::local(id);
        let mut fut = ActorFuture::new();
        fut.set_pid(fpid.clone());
        let deadline = if timeout > 0 {
            Some(crate::actor_context::saturating_add(now, timeout))
        } else {
            None
        };
        self.processes.push(ProcessSlot::Future(fut, deadline));
        let envelope = MessageEnvelope::new(message).with_sender(fpid.clone());
        self.deliver_user_message(target, MessageHandle::Envelope(Box::new(envelope)));
        fpid
    }

    /// The resolution of the future behind `fpid`: `None` while pending or
    /// if no future lives there, otherwise the reply or the error.
    pub fn future_result(&self, fpid: &Pid) -> (r: Option<
        Result<MessageHandle, ActorFutureError>,
    >)
        requires
            self.wf(),
        ensures
            match future_at(self.processes@, fpid.id) {
                Some(f) => match r {
                    None => !f@.done,
                    Some(Err(e)) => f@.error == Some(e),
                    Some(Ok(m)) => f@.done && f@.error is None && f@.result == Some(m@),
                },
                None => r is None,
            },
    {
        let idx = match self.slot_index(fpid.id) {
            Some(i) => i,
            None => {
                return None;
            },
        };
        match &self.processes[idx] {
            ProcessSlot::Future(f, _) => f.result(),
            _ => None,
        }
    }

    /// Registers a pipe target on the future behind `fpid`; a resolved
    /// future notifies the target at once.
    pub fn pipe_to(&mut self, fpid: &Pid, target: &Pid)
        requires
            old(self).wf(),
        ensures
            final(self).wf(),
            (match (future_at(old(self).processes@, fpid.id), future_at(
                final(self).processes@,
                fpid.id,
            )) {
                (Some(f), Some(f2)) => {
                    &&& !f@.done ==> f2@.pipes == f@.pipes.push(*target) && final(self).pending_sends@ == old(self).pending_sends@
                    &&& f@.done ==> f2 == f && final(self).pending_sends@.len() == old(self).pending_sends@.len() + 1 && final(self).pending_sends@.last().0
                        == *target && final(self).pending_sends@.last().1@
                        == crate::future::spec_resolved_payload(f@)
                },
                (None, _) => final(self).pending_sends@ == old(self).pending_sends@,
                _ => false,
            }),
    {
        let idx = match self.slot_index(fpid.id) {
            Some(i) => i,
            None => {
                return ;
            },
        };
        let mut fut_effects: Option<crate::future::FutureEffects> = None;
        match &mut self.processes[idx] {
            ProcessSlot::Future(f, _) => {
                fut_effects = Some(f.pipe_to(target.clone()));
            },
            _ => (),
        }
        match fut_effects {
            Some(mut e) => {
                let ghost sends_pre = e.sends@;
                self.pending_sends.append(&mut e.sends);
                self.pending_callbacks.append(&mut e.callbacks);
                proof {
                    if sends_pre.len() == 0 {
                        assert(self.pending_sends@ =~= old(self).pending_sends@);
                    }
                    assert(self.pending_callbacks@ =~= old(self).pending_callbacks@);
                }
            },
            None => (),
        }
    }

    /// Queues a continuation token on the future behind `fpid`; on a
    /// resolved future the token is handed straight to the callback queue.
    pub fn continue_with(&mut self, fpid: &Pid, token: u64)
        requires
            old(self).wf(),
        ensures
            final(self).wf(),
            (match (future_at(old(self).processes@, fpid.id), future_at(
                final(self).processes@,
                fpid.id,
            )) {
                (Some(f), Some(f2)) => {
                    &&& !f@.done ==> f2@.completions == f@.completions.push(token) && final(self).pending_callbacks@ == old(self).pending_callbacks@
                    &&& f@.done ==> f2 == f && final(self).pending_callbacks@ == old(self).pending_callbacks@.push(token)
                },
                (None, _) => final(self).pending_callbacks@ == old(self).pending_callbacks@,
                _ => false,
            }),
    {
        let idx = match self.slot_index(fpid.id) {
            Some(i) => i,
            None => {
                return ;
            },
        };
        let mut fut_effects: Option<crate::future::FutureEffects> = None;
        match &mut self.processes[idx] {
            ProcessSlot::Future(f, _) => {
                fut_effects = Some(f.continue_with(token));
            },
            _ => (),
        }
        match fut_effects {
            Some(mut e) => {
                let ghost callbacks_pre = e.callbacks@;
                self.pending_sends.append(&mut e.sends);
                self.pending_callbacks.append(&mut e.callbacks);
                proof {
                    assert(self.pending_sends@ =~= old(self).pending_sends@);
                    if callbacks_pre.len() == 0 {
                        assert(self.pending_callbacks@ =~= old(self).pending_callbacks@);
                    } else {
                        assert(self.pending_callbacks@ =~= old(self).pending_callbacks@.push(
                            token,
                        ));
                    }
                }
            },
            None => (),
        }
    }

    /// The continuation tokens whose callbacks the driver must now run, in
    /// resolution order.
    pub fn take_callbacks(&mut self) -> (r: Vec<u64>)
        requires
            old(self).wf(),
        ensures
            final(self).wf(),
            r@ == old(self).pending_callbacks@,
            final(self).pending_callbacks@ == Seq::<u64>::empty(),
    {
        let mut taken: Vec<u64> = Vec::new();
        std::mem::swap(&mut taken, &mut self.pending_callbacks);
        taken
    }

    /// Asks the actor behind `pid` to stop after its current traffic.
    pub fn stop(&mut self, pid: &Pid)
        requires
            old(self).wf(),
        ensures
            final(self).wf(),
            (match actor_at(old(self).processes@, pid.id) {
                Some(c) => pid.address@ == spec_local_address() && c.state
                    != Lifecycle::Stopped,
                None => false,
            }) ==> (match (actor_at(old(self).processes@, pid.id), actor_at(
                final(self).processes@,
                pid.id,
            )) {
                (Some(c), Some(c2)) => c2.mailbox@.system_messages
                    == c.mailbox@.system_messages.push(SystemMessage::Stop),
                _ => false,
            }),
    {
        self.post_system_to(pid, SystemMessage::Stop);
    }

    /// Sends a poison pill: the actor stops itself once the pill reaches
    /// the front of its user queue.
    pub fn poison(&mut self, pid: &Pid)
        requires
            old(self).wf(),
        ensures
            final(self).wf(),
            is_dead_target(old(self).processes@, *pid) ==> final(self).dead_letters@.len()
                == old(self).dead_letters@.len() + 1,
            (match actor_at(old(self).processes@, pid.id) {
                Some(c) => pid.address@ == spec_local_address() && c.state
                    != Lifecycle::Stopped && (match c.mailbox@.bound {
                    Some(b) => c.mailbox@.user_messages.len() < b,
                    None => true,
                }),
                None => false,
            }) ==> (match (actor_at(old(self).processes@, pid.id), actor_at(
                final(self).processes@,
                pid.id,
            )) {
                (Some(c), Some(c2)) => c2.mailbox@.user_messages
                    == c.mailbox@.user_messages.push(MessageHandle::PoisonPill),
                _ => false,
            }),
    {
        self.deliver_user_message(pid, MessageHandle::PoisonPill);
    }

    /// Stops the actor behind `pid` and returns a future that resolves with
    /// the termination notice: the future is registered as a watcher before
    /// the stop signal, so the notice reaches it. A non-zero `timeout` arms
    /// a deadline of `now + timeout` on the slot.
    pub fn stop_future(&mut self, pid: &Pid, timeout: u64, now: u64) -> (r: Pid)
        requires
            old(self).wf(),
            old(self).processes@.len() < usize::MAX,
        ensures
            final(self).wf(),
            r.id == old(self).processes@.len(),
            r.address@ == spec_local_address(),
            final(self).processes@.len() == old(self).processes@.len() + 1,
            future_deadline_at(final(self).processes@, r.id) == Some(
                if timeout > 0 {
                    Some(crate::actor_context::spec_saturating_add(now, timeout))
                } else {
                    None::<u64>
                },
            ),
            (match future_at(final(self).processes@, r.id) {
                Some(f) => !f@.done && f@.pid == Some(r) && f@.pipes.len() == 0
                    && f@.completions.len() == 0,
                None => false,
            }),
            (match actor_at(old(self).processes@, pid.id) {
                Some(c) => pid.address@ == spec_local_address() && c.state
                    != Lifecycle::Stopped,
                None => false,
            }) ==> (match (actor_at(old(self).processes@, pid.id), actor_at(
                final(self).processes@,
                pid.id,
            )) {
                (Some(c), Some(c2)) => {
                    &&& c2.mailbox@.system_messages == c.mailbox@.system_messages.push(
                        SystemMessage::Watch { watcher: r },
                    ).push(SystemMessage::Stop)
                    &&& c2.mailbox@.user_messages == c.mailbox@.user_messages
                    &&& c2.state == c.state
                },
                _ => false,
            }),
    {
        let id = self.processes.len() as u64;
        let fpid = Pid::local(id);
        let mut fut = ActorFuture::new();
        fut.set_pid(fpid.clone());
        let deadline = if timeout > 0 {
            Some(crate::actor_context::saturating_add(now, timeout))
        } else {
            None
        };
        self.processes.push(ProcessSlot::Future(fut, deadline));
        self.post_system_to(pid, SystemMessage::Watch { watcher: fpid.clone() });
        self.post_system_to(pid, SystemMessage::Stop);
        fpid
    }

    /// Best-effort removal from the registry: the slot is given up and
    /// every further send towards the pid becomes a dead letter.
    pub fn remove(&mut self, pid: &Pid)
        requires
            old(self).wf(),
            match old(self).turn {
                Some(t) => t.actor != pid.id,
                None => true,
            },
        ensures
            final(self).wf(),
            pid.id < old(self).processes@.len() ==> final(self).processes@ == old(self).processes@.update(pid.id as int, ProcessSlot::Removed),
            pid.id >= old(self).processes@.len() ==> final(self).processes == old(self).processes,
    {
        let idx = match self.slot_index(pid.id) {
            Some(i) => i,
            None => {
                return ;
            },
        };
        self.processes[idx] = ProcessSlot::Removed;
    }

    /// Configures the receive timeout of the actor behind `pid`: after
    /// `duration` milliseconds without a user message a timeout notice is
    /// delivered; zero cancels.
    pub fn set_receive_timeout(&mut self, pid: &Pid, duration: u64, now: u64)
        requires
            old(self).wf(),
        ensures
            final(self).wf(),
            match (actor_at(old(self).processes@, pid.id), actor_at(
                final(self).processes@,
                pid.id,
            )) {
                (Some(c), Some(c2)) => c2.receive_timeout == duration && c2.timeout_deadline
                    == (if duration > 0 {
                    Some(crate::actor_context::spec_saturating_add(now, duration))
                } else {
                    None::<u64>
                }),
                _ => true,
            },
    {
        let idx = match self.slot_index(pid.id) {
            Some(i) => i,
            None => {
                return ;
            },
        };
        match &mut self.processes[idx] {
            ProcessSlot::Actor(c) => c.set_receive_timeout(duration, now),
            _ => (),
        }
    }

    /// Advances the clock: every armed receive timeout that is due fires a
    /// timeout notice into its actor's own mailbox and re-arms — the idle
    /// mailbox is scheduled — and every future whose deadline passed fails
    /// with a timeout. Nothing is removed: earlier routing work and the
    /// dead-letter topic stay as they were, with the timeout fallout
    /// appended.
    pub fn tick(&mut self, now: u64)
        requires
            old(self).wf(),
        ensures
            final(self).wf(),
            final(self).processes@.len() == old(self).processes@.len(),
            final(self).turn == old(self).turn,
            final(self).dead_letters == old(self).dead_letters,
            forall|j: int|
                0 <= j < old(self).processes@.len() ==> spec_ticked_slot(
                    #[trigger] old(self).processes@[j],
                    final(self).processes@[j],
                    now,
                ),
            old(self).run_queue@.is_prefix_of(final(self).run_queue@),
            old(self).pending_sends@.is_prefix_of(final(self).pending_sends@),
            old(self).pending_callbacks@.is_prefix_of(final(self).pending_callbacks@),
            forall|j: int|
                0 <= j < old(self).processes@.len() ==> (match #[trigger] old(self).processes@[j] {
                    ProcessSlot::Actor(c) => {
                        let due = c.state is Alive && (c.timeout_deadline matches Some(d) && d
                            <= now);
                        let accepted = match c.mailbox@.bound {
                            Some(b) => c.mailbox@.user_messages.len() < b,
                            None => true,
                        };
                        (due && accepted && c.mailbox@.status is Idle) ==> final(self).run_queue@.contains(j as u64)
                    },
                    _ => true,
                }),
    {
        let mut i: usize = 0;
        while i < self.processes.len()
            invariant
                self.wf(),
                i <= self.processes@.len(),
                self.processes@.len() == old(self).processes@.len(),
                self.turn == old(self).turn,
                self.dead_letters == old(self).dead_letters,
                forall|j: int|
                    0 <= j < i ==> spec_ticked_slot(
                        #[trigger] old(self).processes@[j],
                        self.processes@[j],
                        now,
                    ),
                forall|j: int|
                    i <= j < self.processes@.len() ==> self.processes@[j] == old(self).processes@[j],
                old(self).run_queue@.is_prefix_of(self.run_queue@),
                old(self).pending_sends@.is_prefix_of(self.pending_sends@),
                old(self).pending_callbacks@.is_prefix_of(self.pending_callbacks@),
                forall|j: int|
                    0 <= j < i ==> (match #[trigger] old(self).processes@[j] {
                        ProcessSlot::Actor(c) => {
                            let due = c.state is Alive && (c.timeout_deadline matches Some(d)
                                && d <= now);
                            let accepted = match c.mailbox@.bound {
                                Some(b) => c.mailbox@.user_messages.len() < b,
                                None => true,
                            };
                            (due && accepted && c.mailbox@.status is Idle) ==> self.run_queue@.contains(j as u64)
                        },
                        _ => true,
                    }),
            decreases self.processes@.len() - i,
        {
            let ghost rq_head = self.run_queue@;
            let mut schedule = false;
            let mut fut_effects: Option<crate::future::FutureEffects> = None;
            match &mut self.processes[i] {
                ProcessSlot::Actor(c) => {
                    let due = match c.timeout_deadline {
                        Some(d) => d <= now,
                        None => false,
                    };
                    if due && matches!(c.state, Lifecycle::Alive) {
                        let out = c.mailbox.post_user_message(MessageHandle::ReceiveTimeout);
                        schedule = out.accepted && out.schedule;
                        c.rearm_timeout(now);
                    }
                },
                ProcessSlot::Future(f, deadline) => {
                    let due = match deadline {
                        Some(d) => *d <= now,
                        None => false,
                    };
                    if due {
                        if f.is_empty() {
                            fut_effects = Some(f.handle_timeout());
                        }
                        *deadline = None;
                    }
                },
                ProcessSlot::Removed => (),
            }
            if schedule {
                self.run_queue.push(i as u64);
            }
            match fut_effects {
                Some(mut e) => {
                    self.pending_sends.append(&mut e.sends);
                    self.pending_callbacks.append(&mut e.callbacks);
                },
                None => (),
            }
            proof {
                assert(self.run_queue@.subrange(0, old(self).run_queue@.len() as int)
                    =~= old(self).run_queue@);
                assert(self.pending_sends@.subrange(0, old(self).pending_sends@.len() as int)
                    =~= old(self).pending_sends@);
                assert(self.pending_callbacks@.subrange(
                    0,
                    old(self).pending_callbacks@.len() as int,
                ) =~= old(self).pending_callbacks@);
                assert forall|j: int|
                    0 <= j < i + 1 && (match #[trigger] old(self).processes@[j] {
                        ProcessSlot::Actor(c) => {
                            let due = c.state is Alive && (c.timeout_deadline matches Some(d)
                                && d <= now);
                            let accepted = match c.mailbox@.bound {
                                Some(b) => c.mailbox@.user_messages.len() < b,
                                None => true,
                            };
                            due && accepted && c.mailbox@.status is Idle
                        },
                        _ => false,
                    }) implies self.run_queue@.contains(j as u64) by {
                    if j < i {
                        let k = choose|k: int|
                            0 <= k < rq_head.len() && rq_head[k] == j as u64;
                        assert(self.run_queue@[k] == j as u64);
                    } else {
                        assert(self.run_queue@[rq_head.len() as int] == j as u64);
                    }
                }
            }
            i = i + 1;
        }
    }
}

} // verus!
