//! The per-actor state machine.
//!
//! An [`ActorCell`] owns one actor's mailbox, lifecycle state, children,
//! watchers and invocation history. System messages drive the lifecycle:
//! stopping delivers the stop hooks and waits for the children, restarting
//! suspends the mailbox until the children are gone and then recreates the
//! actor from its props, watchers are collected idempotently, and a finished
//! stop notifies every watcher and the parent.
//!
//! The invocation history underpins the lifecycle ordering guarantees: the
//! pre-start hook is the first entry and occurs exactly once, and the
//! post-stop hook, once it happens, is the last entry ever.

use vstd::prelude::*;

use crate::mailbox::{DefaultMailbox, MailboxStatus, MailboxView};
use crate::message::{MessageHandle, SystemMessage, TerminateReason};
use crate::pid::Pid;
use crate::props::Props;
use crate::restart_statistics::RestartStatistics;
use crate::strategy_one_for_one::OneForOneStrategy;

verus! {

/// The lifecycle state of an actor.
#[derive(Debug, Clone, Copy, PartialEq, Eq, Structural)]
pub enum Lifecycle {
    /// Processing messages normally.
    Alive,
    /// Waiting for the children to stop before the actor is recreated.
    Restarting,
    /// Waiting for the children to stop before the actor goes away.
    Stopping,
    /// Gone for good; sends are routed to dead letters.
    Stopped,
}

/// One invocation of user code on behalf of this actor, in order.
#[derive(Debug, Clone, Copy, PartialEq, Eq, Structural)]
pub enum InvocationEvent {
    /// The pre-start hook, run once when the actor is spawned.
    PreStart,
    /// The post-start hook, run after a restart recreated the actor.
    PostStart,
    /// The pre-restart hook, run when a restart begins recreating.
    PreRestart,
    /// The pre-stop hook, run when the stop sequence begins.
    PreStop,
    /// The post-stop hook, run once when the actor is gone.
    PostStop,
    /// One user message handed to `receive`.
    UserMessage,
}

/// A message the cell asks the runtime to route.
#[derive(Debug)]
pub enum CellEffect {
    /// Post a system message to the mailbox of `target`.
    SystemTo { target: Pid, message: SystemMessage },
    /// Send a user message to `target`.
    UserTo { target: Pid, message: MessageHandle },
}

/// The stop posts that begin a stop or restart: one per child, in order.
pub open spec fn spec_stop_children_effects(children: Seq<Pid>) -> Seq<CellEffect> {
    children.map_values(
        |c: Pid| CellEffect::SystemTo { target: c, message: SystemMessage::Stop },
    )
}

/// The notices a finished stop produces: a termination notice to every
/// watcher, then, if there is a parent, one system notice for its
/// bookkeeping and one user-level notice for its `receive`.
pub open spec fn spec_termination_notices(
    self_pid: Pid,
    watchers: Seq<Pid>,
    parent: Option<Pid>,
) -> Seq<CellEffect> {
    watchers.map_values(
        |w: Pid| CellEffect::UserTo {
            target: w,
            message: MessageHandle::Terminated {
                who: self_pid,
                reason: TerminateReason::Stopped,
            },
        },
    ) + (match parent {
        Some(p) => seq![
            CellEffect::SystemTo {
                target: p,
                message: SystemMessage::Terminated {
                    who: self_pid,
                    reason: TerminateReason::Stopped,
                },
            },
            CellEffect::UserTo {
                target: p,
                message: MessageHandle::Terminated {
                    who: self_pid,
                    reason: TerminateReason::Stopped,
                },
            },
        ],
        None => Seq::empty(),
    })
}

/// The invocation history is well formed for the given lifecycle state: it
/// opens with the one and only pre-start hook, and the post-stop hook has
/// happened — once, and last — exactly when the actor is stopped.
pub open spec fn log_wf(log: Seq<InvocationEvent>, state: Lifecycle) -> bool {
    &&& log.len() >= 1
    &&& log[0] == InvocationEvent::PreStart
    &&& forall|i: int| 1 <= i < log.len() ==> log[i] != InvocationEvent::PreStart
    &&& if state is Stopped {
        log.last() == InvocationEvent::PostStop && forall|i: int|
            0 <= i < log.len() - 1 ==> log[i] != InvocationEvent::PostStop
    } else {
        forall|i: int| 0 <= i < log.len() ==> log[i] != InvocationEvent::PostStop
    }
}

/// One actor's runtime state.
pub struct ActorCell {
    pub self_pid: Pid,
    pub name: Option<String>,
    pub parent: Option<Pid>,
    pub mailbox: DefaultMailbox,
    pub state: Lifecycle,
    pub children: Vec<Pid>,
    pub watchers: Vec<Pid>,
    pub watching: Vec<Pid>,
    pub invocations: Vec<InvocationEvent>,
    pub strategy: OneForOneStrategy,
    pub guardian: Option<OneForOneStrategy>,
    pub restart_stats: RestartStatistics,
    pub receive_timeout: u64,
    pub timeout_deadline: Option<u64>,
}

/// The fields a lifecycle step never touches.
pub open spec fn same_identity(a: ActorCell, b: ActorCell) -> bool {
    &&& a.self_pid == b.self_pid
    &&& a.name == b.name
    &&& a.parent == b.parent
    &&& a.strategy == b.strategy
    &&& a.guardian == b.guardian
}

impl ActorCell {
    /// The cell's invariant: a sound mailbox, a well-formed invocation
    /// history, and watchers registered at most once each.
    pub open spec fn wf(&self) -> bool {
        &&& self.mailbox.wf()
        &&& log_wf(self.invocations@, self.state)
        &&& forall|i: int, j: int|
            0 <= i < j < self.watchers@.len() ==> self.watchers@[i].id != self.watchers@[j].id
    }

    /// A freshly spawned cell: alive, its pre-start hook just invoked, an
    /// empty mailbox built from the props, and the props' supervision
    /// strategy.
    pub fn new(self_pid: Pid, name: Option<String>, parent: Option<Pid>, props: &Props) -> (r:
        ActorCell)
        requires
            props.wf(),
        ensures
            r.wf(),
            r.self_pid == self_pid,
            r.name == name,
            r.parent == parent,
            r.state == Lifecycle::Alive,
            r.invocations@ == seq![InvocationEvent::PreStart],
            r.children@ == Seq::<Pid>::empty(),
            r.watchers@ == Seq::<Pid>::empty(),
            r.watching@ == Seq::<Pid>::empty(),
            r.strategy == (match props@.supervisor_strategy {
                Some(s) => s,
                None => crate::props::default_strategy(),
            }),
            r.guardian == props@.guardian_strategy,
            r.restart_stats@ == Seq::<u64>::empty(),
            r.receive_timeout == 0,
            r.timeout_deadline is None,
            r.mailbox@.status is Idle,
            !r.mailbox@.suspended,
            r.mailbox@.system_messages.len() == 0,
            r.mailbox@.user_messages.len() == 0,
            r.mailbox@.throughput == props@.mailbox_throughput,
            r.mailbox@.bound == props@.mailbox_bound,
    {
        let mailbox = DefaultMailbox::new(props.mailbox_throughput, props.mailbox_bound);
        let strategy = props.get_supervisor_strategy();
        let mut invocations: Vec<InvocationEvent> = Vec::new();
        invocations.push(InvocationEvent::PreStart);
        proof {
            assert(invocations@ =~= seq![InvocationEvent::PreStart]);
        }
        let guardian = match &props.guardian_strategy {
            Some(g) => Some(*g),
            None => None,
        };
        ActorCell {
            self_pid,
            name,
            parent,
            mailbox,
            state: Lifecycle::Alive,
            children: Vec::new(),
            watchers: Vec::new(),
            watching: Vec::new(),
            invocations,
            strategy,
            guardian,
            restart_stats: RestartStatistics::new(),
            receive_timeout: 0,
            timeout_deadline: None,
        }
    }

    /// Appends one invocation to the history. Only a finalising step may
    /// append the post-stop hook, and nothing follows it.
    fn log_event(&mut self, ev: InvocationEvent)
        requires
            log_wf(old(self).invocations@, old(self).state),
            old(self).state != Lifecycle::Stopped,
            ev != InvocationEvent::PreStart,
            ev != InvocationEvent::PostStop,
        ensures
            final(self).invocations@ == old(self).invocations@.push(ev),
            log_wf(final(self).invocations@, final(self).state),
            *final(self) == (ActorCell { invocations: final(self).invocations, ..*old(self) }),
    {
        self.invocations.push(ev);
    }

    /// Records one user message handed to the actor's `receive`, and re-arms
    /// the receive timeout if one is configured.
    pub fn record_user_delivery(&mut self, now: u64)
        requires
            old(self).wf(),
            old(self).state == Lifecycle::Alive,
        ensures
            final(self).wf(),
            same_identity(*old(self), *final(self)),
            final(self).invocations@ == old(self).invocations@.push(
                InvocationEvent::UserMessage,
            ),
            final(self).state == old(self).state,
            final(self).mailbox == old(self).mailbox,
            final(self).children == old(self).children,
            final(self).watchers == old(self).watchers,
            final(self).receive_timeout == old(self).receive_timeout,
            final(self).timeout_deadline == (if old(self).receive_timeout > 0 {
                Some(spec_saturating_add(now, old(self).receive_timeout))
            } else {
                old(self).timeout_deadline
            }),
    {
        self.log_event(InvocationEvent::UserMessage);
        if self.receive_timeout > 0 {
            self.timeout_deadline = Some(saturating_add(now, self.receive_timeout));
        }
    }

    /// Configures the receive timeout: after `duration` milliseconds without
    /// a user message, a timeout notice is delivered. Zero cancels.
    pub fn set_receive_timeout(&mut self, duration: u64, now: u64)
        requires
            old(self).wf(),
        ensures
            final(self).wf(),
            same_identity(*old(self), *final(self)),
            final(self).receive_timeout == duration,
            final(self).timeout_deadline == (if duration > 0 {
                Some(spec_saturating_add(now, duration))
            } else {
                None::<u64>
            }),
            final(self).invocations == old(self).invocations,
            final(self).state == old(self).state,
            final(self).mailbox == old(self).mailbox,
            final(self).children == old(self).children,
            final(self).watchers == old(self).watchers,
    {
        self.receive_timeout = duration;
        if duration > 0 {
            self.timeout_deadline = Some(saturating_add(now, duration));
        } else {
            self.timeout_deadline = None;
        }
    }

    /// Re-arms the receive timeout after it fired.
    pub fn rearm_timeout(&mut self, now: u64)
        requires
            old(self).wf(),
        ensures
            final(self).wf(),
            same_identity(*old(self), *final(self)),
            final(self).timeout_deadline == (if old(self).receive_timeout > 0 {
                Some(spec_saturating_add(now, old(self).receive_timeout))
            } else {
                None::<u64>
            }),
            final(self).invocations == old(self).invocations,
            final(self).state == old(self).state,
            final(self).mailbox == old(self).mailbox,
            final(self).children == old(self).children,
            final(self).watchers == old(self).watchers,
            final(self).watching == old(self).watching,
            final(self).restart_stats == old(self).restart_stats,
            final(self).receive_timeout == old(self).receive_timeout,
    {
        if self.receive_timeout > 0 {
            self.timeout_deadline = Some(saturating_add(now, self.receive_timeout));
        } else {
            self.timeout_deadline = None;
        }
    }

    /// Registers a watcher for this actor's termination notice. Watching is
    /// idempotent: a pid already registered is not registered again.
    pub fn add_watcher(&mut self, watcher: Pid) -> (added: bool)
        requires
            old(self).wf(),
        ensures
            final(self).wf(),
            same_identity(*old(self), *final(self)),
            added == !contains_id(old(self).watchers@, watcher.id),
            final(self).watchers@ == (if added {
                old(self).watchers@.push(watcher)
            } else {
                old(self).watchers@
            }),
            final(self).invocations == old(self).invocations,
            final(self).state == old(self).state,
            final(self).mailbox == old(self).mailbox,
            final(self).children == old(self).children,
    {
        let mut i: usize = 0;
        while i < self.watchers.len()
            invariant
                i <= self.watchers@.len(),
                *self == *old(self),
                old(self).wf(),
                forall|j: int| 0 <= j < i ==> self.watchers@[j].id != watcher.id,
            decreases self.watchers@.len() - i,
        {
            if self.watchers[i].id == watcher.id {
                return false;
            }
            i = i + 1;
        }
        self.watchers.push(watcher);
        true
    }

    /// Removes a watcher again; unknown pids are ignored.
    pub fn remove_watcher(&mut self, watcher: Pid)
        requires
            old(self).wf(),
        ensures
            final(self).wf(),
            same_identity(*old(self), *final(self)),
            !contains_id(final(self).watchers@, watcher.id),
            forall|id: u64|
                id != watcher.id ==> #[trigger] contains_id(final(self).watchers@, id)
                    == contains_id(old(self).watchers@, id),
            final(self).invocations == old(self).invocations,
            final(self).state == old(self).state,
            final(self).mailbox == old(self).mailbox,
            final(self).children == old(self).children,
    {
        let ghost orig = self.watchers@;
        let mut i: usize = 0;
        while i < self.watchers.len()
            invariant
                i <= self.watchers@.len(),
                *self == *old(self),
                old(self).wf(),
                self.watchers@ == orig,
                orig == old(self).watchers@,
                forall|j: int| 0 <= j < i ==> orig[j].id != watcher.id,
            decreases self.watchers@.len() - i,
        {
            if self.watchers[i].id == watcher.id {
                self.watchers.remove(i);
                proof {
                    orig.remove_ensures(i as int);
                    let post = self.watchers@;
                    assert(post =~= orig.remove(i as int));
                    assert forall|a: int, b: int|
                        0 <= a < b < post.len() implies post[a].id != post[b].id by {
                        assert(post[a] == if a < i {
                            orig[a]
                        } else {
                            orig[a + 1]
                        });
                        assert(post[b] == if b < i {
                            orig[b]
                        } else {
                            orig[b + 1]
                        });
                    }
                    assert forall|id: u64| id != watcher.id implies #[trigger] contains_id(
                        post,
                        id,
                    ) == contains_id(orig, id) by {
                        if contains_id(post, id) {
                            let a = choose|a: int| 0 <= a < post.len() && post[a].id == id;
                            if a < i {
                                assert(orig[a].id == id);
                            } else {
                                assert(orig[a + 1].id == id);
                            }
                        }
                        if contains_id(orig, id) {
                            let a = choose|a: int| 0 <= a < orig.len() && orig[a].id == id;
                            if a < i {
                                assert(post[a].id == id);
                            } else if a > i {
                                assert(post[a - 1].id == id);
                            }
                        }
                    }
                    assert forall|a: int|
                        0 <= a < post.len() implies post[a].id != watcher.id by {
                        assert(post[a] == if a < i {
                            orig[a]
                        } else {
                            orig[a + 1]
                        });
                    }
                }
                return ;
            }
            i = i + 1;
        }
    }

    /// Registers a freshly spawned child.
    pub fn add_child(&mut self, child: Pid)
        requires
            old(self).wf(),
        ensures
            final(self).wf(),
            same_identity(*old(self), *final(self)),
            final(self).children@ == old(self).children@.push(child),
            final(self).invocations == old(self).invocations,
            final(self).state == old(self).state,
            final(self).mailbox == old(self).mailbox,
            final(self).watchers == old(self).watchers,
    {
        self.children.push(child);
    }

    /// Records that this actor watches another.
    pub fn add_watching(&mut self, target: Pid)
        requires
            old(self).wf(),
        ensures
            final(self).wf(),
            same_identity(*old(self), *final(self)),
            final(self).watching@ == old(self).watching@.push(target),
            final(self).invocations == old(self).invocations,
            final(self).state == old(self).state,
            final(self).mailbox == old(self).mailbox,
    {
        self.watching.push(target);
    }

    /// The stop posts for all children, in order.
    fn stop_children_effects(&self) -> (r: Vec<CellEffect>)
        ensures
            r@ == spec_stop_children_effects(self.children@),
    {
        let mut r: Vec<CellEffect> = Vec::new();
        let mut i: usize = 0;
        while i < self.children.len()
            invariant
                i <= self.children@.len(),
                r@.len() == i as int,
                forall|j: int|
                    0 <= j < i ==> r@[j] == (CellEffect::SystemTo {
                        target: self.children@[j],
                        message: SystemMessage::Stop,
                    }),
            decreases self.children@.len() - i,
        {
            let target = self.children[i].clone();
            r.push(CellEffect::SystemTo { target, message: SystemMessage::Stop });
            i = i + 1;
        }
        proof {
            assert(r@ =~= spec_stop_children_effects(self.children@));
        }
        r
    }

    /// The notices of this actor's termination, for the watchers and the
    /// parent.
    fn termination_notices(&self) -> (r: Vec<CellEffect>)
        ensures
            r@ == spec_termination_notices(self.self_pid, self.watchers@, self.parent),
    {
        let mut r: Vec<CellEffect> = Vec::new();
        let mut i: usize = 0;
        while i < self.watchers.len()
            invariant
                i <= self.watchers@.len(),
                r@.len() == i as int,
                forall|j: int|
                    0 <= j < i ==> r@[j] == (CellEffect::UserTo {
                        target: self.watchers@[j],
                        message: MessageHandle::Terminated {
                            who: self.self_pid,
                            reason: TerminateReason::Stopped,
                        },
                    }),
            decreases self.watchers@.len() - i,
        {
            let target = self.watchers[i].clone();
            let who = self.self_pid.clone();
            r.push(
                CellEffect::UserTo {
                    target,
                    message: MessageHandle::Terminated {
                        who,
                        reason: TerminateReason::Stopped,
                    },
                },
            );
            i = i + 1;
        }
        match &self.parent {
            Some(p) => {
                let t1 = p.clone();
                let w1 = self.self_pid.clone();
                r.push(
                    CellEffect::SystemTo {
                        target: t1,
                        message: SystemMessage::Terminated {
                            who: w1,
                            reason: TerminateReason::Stopped,
                        },
                    },
                );
                let t2 = p.clone();
                let w2 = self.self_pid.clone();
                r.push(
                    CellEffect::UserTo {
                        target: t2,
                        message: MessageHandle::Terminated {
                            who: w2,
                            reason: TerminateReason::Stopped,
                        },
                    },
                );
            },
            None => (),
        }
        proof {
            assert(r@ =~= spec_termination_notices(
                self.self_pid,
                self.watchers@,
                self.parent,
            ));
        }
        r
    }

    /// Completes the stop sequence: the post-stop hook runs, the state
    /// reaches its terminal value, the receive timeout dies, and the notices
    /// for the watchers and the parent are produced. Nothing is ever
    /// invoked on this actor again.
    fn finalize(&mut self) -> (effects: Vec<CellEffect>)
        requires
            old(self).wf(),
            old(self).state != Lifecycle::Stopped,
        ensures
            final(self).wf(),
            same_identity(*old(self), *final(self)),
            final(self).state == Lifecycle::Stopped,
            final(self).invocations@ == old(self).invocations@.push(
                InvocationEvent::PostStop,
            ),
            final(self).timeout_deadline is None,
            final(self).mailbox == old(self).mailbox,
            final(self).children == old(self).children,
            effects@ == spec_termination_notices(
                old(self).self_pid,
                old(self).watchers@,
                old(self).parent,
            ),
    {
        let effects = self.termination_notices();
        self.invocations.push(InvocationEvent::PostStop);
        self.state = Lifecycle::Stopped;
        self.timeout_deadline = None;
        effects
    }

    /// Begins the stop sequence: the pre-stop hook runs and every child is
    /// asked to stop. With no children the stop completes at once.
    pub fn begin_stop(&mut self) -> (effects: Vec<CellEffect>)
        requires
            old(self).wf(),
            old(self).state == Lifecycle::Alive || old(self).state == Lifecycle::Restarting,
        ensures
            final(self).wf(),
            same_identity(*old(self), *final(self)),
            final(self).mailbox == old(self).mailbox,
            final(self).children == old(self).children,
            old(self).children@.len() > 0 ==> final(self).state == Lifecycle::Stopping
                && final(self).invocations@ == old(self).invocations@.push(
                InvocationEvent::PreStop,
            ) && effects@ == spec_stop_children_effects(old(self).children@),
            old(self).children@.len() == 0 ==> final(self).state == Lifecycle::Stopped
                && final(self).invocations@ == old(self).invocations@.push(
                InvocationEvent::PreStop,
            ).push(InvocationEvent::PostStop) && effects@ == spec_termination_notices(
                old(self).self_pid,
                old(self).watchers@,
                old(self).parent,
            ) && final(self).timeout_deadline is None,
    {
        self.log_event(InvocationEvent::PreStop);
        if self.children.len() == 0 {
            self.state = Lifecycle::Stopping;
            self.finalize()
        } else {
            self.state = Lifecycle::Stopping;
            self.stop_children_effects()
        }
    }

    /// Recreates the actor once the children of a restart are gone: the
    /// pre-restart hook runs, a fresh instance takes over, the post-start
    /// hook runs, and the mailbox resumes.
    fn complete_restart(&mut self)
        requires
            old(self).wf(),
            old(self).state == Lifecycle::Restarting,
        ensures
            final(self).wf(),
            same_identity(*old(self), *final(self)),
            final(self).state == Lifecycle::Alive,
            final(self).invocations@ == old(self).invocations@.push(
                InvocationEvent::PreRestart,
            ).push(InvocationEvent::PostStart),
            final(self).mailbox@ == (MailboxView { suspended: false, ..old(self).mailbox@ }),
            final(self).children == old(self).children,
    {
        self.log_event(InvocationEvent::PreRestart);
        self.log_event(InvocationEvent::PostStart);
        self.state = Lifecycle::Alive;
        self.mailbox.resume();
    }

    /// Begins a restart ordered by the supervisor: the mailbox is suspended
    /// and every child is asked to stop; with no children the actor is
    /// recreated at once and the mailbox resumes.
    pub fn begin_restart(&mut self) -> (effects: Vec<CellEffect>)
        requires
            old(self).wf(),
            old(self).state == Lifecycle::Alive,
        ensures
            final(self).wf(),
            same_identity(*old(self), *final(self)),
            final(self).children == old(self).children,
            old(self).children@.len() > 0 ==> final(self).state == Lifecycle::Restarting
                && final(self).invocations == old(self).invocations && final(self).mailbox@
                == (MailboxView { suspended: true, ..old(self).mailbox@ }) && effects@
                == spec_stop_children_effects(old(self).children@),
            old(self).children@.len() == 0 ==> final(self).state == Lifecycle::Alive
                && final(self).invocations@ == old(self).invocations@.push(
                InvocationEvent::PreRestart,
            ).push(InvocationEvent::PostStart) && final(self).mailbox@ == (MailboxView {
                suspended: false,
                ..old(self).mailbox@
            }) && effects@ == Seq::<CellEffect>::empty(),
    {
        self.mailbox.suspend();
        self.state = Lifecycle::Restarting;
        if self.children.len() == 0 {
            self.complete_restart();
            Vec::new()
        } else {
            self.stop_children_effects()
        }
    }

    /// The position of the child carrying `id`, if it is a child.
    fn index_of_child(&self, id: u64) -> (r: Option<usize>)
        ensures
            match r {
                Some(i) => i < self.children@.len() && self.children@[i as int].id == id,
                None => !contains_id(self.children@, id),
            },
    {
        let mut i: usize = 0;
        while i < self.children.len()
            invariant
                i <= self.children@.len(),
                forall|j: int| 0 <= j < i ==> self.children@[j].id != id,
            decreases self.children@.len() - i,
        {
            if self.children[i].id == id {
                return Some(i);
            }
            i = i + 1;
        }
        None
    }

    /// Handles the system notice that a child is gone: the child leaves the
    /// children set, and a stop or restart that waited for it completes.
    pub fn on_child_terminated(&mut self, who: &Pid) -> (effects: Vec<CellEffect>)
        requires
            old(self).wf(),
            old(self).state != Lifecycle::Stopped,
        ensures
            final(self).wf(),
            same_identity(*old(self), *final(self)),
            !contains_id(old(self).children@, who.id) ==> *final(self) == *old(self)
                && effects@ == Seq::<CellEffect>::empty(),
            contains_id(old(self).children@, who.id) ==> final(self).children@.len()
                == old(self).children@.len() - 1,
            (contains_id(old(self).children@, who.id) && final(self).children@.len() == 0
                && old(self).state == Lifecycle::Stopping) ==> final(self).state
                == Lifecycle::Stopped && final(self).invocations@ == old(self).invocations@.push(
                InvocationEvent::PostStop,
            ) && effects@ == spec_termination_notices(
                old(self).self_pid,
                old(self).watchers@,
                old(self).parent,
            ),
            (contains_id(old(self).children@, who.id) && final(self).children@.len() == 0
                && old(self).state == Lifecycle::Restarting) ==> final(self).state
                == Lifecycle::Alive && final(self).invocations@ == old(self).invocations@.push(
                InvocationEvent::PreRestart,
            ).push(InvocationEvent::PostStart) && !final(self).mailbox@.suspended && effects@
                == Seq::<CellEffect>::empty(),
            (contains_id(old(self).children@, who.id) && (final(self).children@.len() > 0
                || old(self).state == Lifecycle::Alive)) ==> final(self).state == old(
                self,
            ).state && final(self).invocations == old(self).invocations && effects@ == Seq::<
                CellEffect,
            >::empty(),
            forall|k: int|
                0 <= k < final(self).children@.len() ==> old(self).children@.contains(
                    #[trigger] final(self).children@[k],
                ),
            final(self).mailbox@.status == old(self).mailbox@.status,
            final(self).mailbox@ == (MailboxView {
                suspended: final(self).mailbox@.suspended,
                ..old(self).mailbox@
            }),
    {
        let found = self.index_of_child(who.id);
        let i = match found {
            Some(i) => i,
            None => {
                return Vec::new();
            },
        };
        let ghost pre_children = self.children@;
        self.children.remove(i);
        proof {
            pre_children.remove_ensures(i as int);
            assert(self.children@ =~= pre_children.remove(i as int));
            assert forall|k: int|
                0 <= k < self.children@.len() implies pre_children.contains(
                #[trigger] self.children@[k],
            ) by {
                assert(self.children@[k] == if k < i {
                    pre_children[k]
                } else {
                    pre_children[k + 1]
                });
            }
        }
        if self.children.len() == 0 {
            match self.state {
                Lifecycle::Stopping => self.finalize(),
                Lifecycle::Restarting => {
                    self.complete_restart();
                    Vec::new()
                },
                _ => Vec::new(),
            }
        } else {
            Vec::new()
        }
    }
}

/// Whether some pid in `s` carries the given id.

/// `a + b`, capped at the largest representable value.
pub open spec fn spec_saturating_add(a: u64, b: u64) -> u64 {
    if a + b <= u64::MAX {
        (a + b) as u64
    } else {
        u64::MAX
    }
}

/// `a + b`, capped at the largest representable value.
pub fn saturating_add(a: u64, b: u64) -> (r: u64)
    ensures
        r == spec_saturating_add(a, b),
{
    match a.checked_add(b) {
        Some(r) => r,
        None => u64::MAX,
    }
}

/// Whether some pid in `s` carries the given id.
pub open spec fn contains_id(s: Seq<Pid>, id: u64) -> bool {
    exists|i: int| 0 <= i < s.len() && s[i].id == id
}

/// Lifecycle ordering: the pre-start hook is invoked exactly once, before
/// everything else; once the actor is stopped, the post-stop hook has been
/// invoked exactly once and nothing — no hook and no user message — follows
/// it. In particular every user message lies strictly between the two.
pub proof fn lemma_lifecycle_invocation_order(c: &ActorCell)
    requires
        c.wf(),
    ensures
        c.invocations@.len() >= 1,
        c.invocations@[0] == InvocationEvent::PreStart,
        forall|i: int|
            1 <= i < c.invocations@.len() ==> c.invocations@[i] != InvocationEvent::PreStart,
        c.state is Stopped ==> c.invocations@.last() == InvocationEvent::PostStop && forall|
            i: int,
        |
            0 <= i < c.invocations@.len() - 1 ==> c.invocations@[i]
                != InvocationEvent::PostStop,
        !(c.state is Stopped) ==> forall|i: int|
            0 <= i < c.invocations@.len() ==> c.invocations@[i] != InvocationEvent::PostStop,
        forall|i: int|
            0 <= i < c.invocations@.len() && c.invocations@[i] == InvocationEvent::UserMessage
                ==> 1 <= i && (c.state is Stopped ==> i < c.invocations@.len() - 1),
{
}

/// Termination notices reach everyone owed one, and nobody twice: the
/// effects of a finished stop carry exactly one user-level notice per
/// watcher, in registration order, and — when the actor has a parent — a
/// bookkeeping notice and a user-level notice for the parent, and nothing
/// else. A stop completes through exactly one path — at once for a
/// childless actor, or when its last child's notice arrives — so these are
/// all the notices the stop produces.
pub proof fn lemma_termination_notices_reach(
    self_pid: Pid,
    watchers: Seq<Pid>,
    parent: Option<Pid>,
)
    ensures
        spec_termination_notices(self_pid, watchers, parent).len() == watchers.len() + (
        if parent is Some {
            2int
        } else {
            0int
        }),
        forall|w: int|
            0 <= w < watchers.len() ==> spec_termination_notices(self_pid, watchers, parent)[w]
                == (CellEffect::UserTo {
                target: watchers[w],
                message: MessageHandle::Terminated {
                    who: self_pid,
                    reason: TerminateReason::Stopped,
                },
            }),
        parent matches Some(p) ==> spec_termination_notices(self_pid, watchers, parent)[
            watchers.len() as int + 1
        ] == (CellEffect::UserTo {
            target: p,
            message: MessageHandle::Terminated {
                who: self_pid,
                reason: TerminateReason::Stopped,
            },
        }) && spec_termination_notices(self_pid, watchers, parent)[watchers.len() as int]
            == (CellEffect::SystemTo {
            target: p,
            message: SystemMessage::Terminated {
                who: self_pid,
                reason: TerminateReason::Stopped,
            },
        }),
{
}

} // verus!
