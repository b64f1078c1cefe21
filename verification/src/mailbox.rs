//! Per-actor mailboxes.
//!
//! A mailbox pairs an unbounded system-message queue with a user-message
//! queue (bounded or unbounded), a three-state dispatch latch, a suspended
//! flag and a throughput bound. The latch admits at most one live turn per
//! mailbox: posting transitions it idle to scheduled, a turn runs it
//! scheduled to processing, and releasing it idles the mailbox again —
//! per-actor execution stays serial.
//!
//! Within a turn, system messages are drained before user messages, and both
//! queues are first-in first-out: the ghost posting and delivery histories
//! make the order a theorem, not a habit.

use vstd::prelude::*;

use crate::message::{MessageHandle, SystemMessage};

verus! {

/// The dispatch latch of a mailbox.
#[derive(Debug, Clone, Copy, PartialEq, Eq, Structural)]
pub enum MailboxStatus {
    /// No turn is pending or running.
    Idle,
    /// A turn has been handed to the dispatcher and waits to run.
    Scheduled,
    /// A turn is running right now.
    Processing,
}

/// The abstract state of a mailbox.
pub struct MailboxView {
    pub system_messages: Seq<SystemMessage>,
    pub user_messages: Seq<MessageHandle>,
    pub status: MailboxStatus,
    pub suspended: bool,
    pub throughput: nat,
    pub bound: Option<nat>,
    pub posted_users: Seq<MessageHandle>,
    pub delivered_users: Seq<MessageHandle>,
    pub posted_systems: Seq<SystemMessage>,
    pub delivered_systems: Seq<SystemMessage>,
}

/// The answer to a post: whether the message was accepted, and whether the
/// caller must now submit the mailbox to its dispatcher.
#[derive(Debug, Clone, Copy, PartialEq, Eq, Structural)]
pub struct PostOutcome {
    pub accepted: bool,
    pub schedule: bool,
}

/// A mailbox, as the runtime schedules it.
pub trait Mailbox: View<V = MailboxView> {
    /// Enqueues a user message; a full bounded mailbox drops it instead. An
    /// accepted message moves the idle latch to scheduled, and the caller
    /// must then hand the mailbox to the dispatcher.
    fn post_user_message(&mut self, message: MessageHandle) -> (r: PostOutcome)
        ensures
            r.accepted == (match old(self)@.bound {
                Some(b) => old(self)@.user_messages.len() < b,
                None => true,
            }),
            r.schedule == (r.accepted && old(self)@.status is Idle),
            final(self)@ == (if r.accepted {
                MailboxView {
                    user_messages: old(self)@.user_messages.push(message),
                    posted_users: old(self)@.posted_users.push(message),
                    status: if old(self)@.status is Idle {
                        MailboxStatus::Scheduled
                    } else {
                        old(self)@.status
                    },
                    ..old(self)@
                }
            } else {
                old(self)@
            });

    /// Enqueues a system message; the system queue never refuses one. An
    /// idle latch moves to scheduled, and the caller must then hand the
    /// mailbox to the dispatcher.
    fn post_system_message(&mut self, message: SystemMessage) -> (schedule: bool)
        ensures
            schedule == old(self)@.status is Idle,
            final(self)@ == (MailboxView {
                system_messages: old(self)@.system_messages.push(message),
                posted_systems: old(self)@.posted_systems.push(message),
                status: if old(self)@.status is Idle {
                    MailboxStatus::Scheduled
                } else {
                    old(self)@.status
                },
                ..old(self)@
            });

    /// The spawner's initial schedule: moves an idle latch to scheduled; a
    /// no-op if a turn is already pending or running.
    fn start(&mut self) -> (schedule: bool)
        ensures
            schedule == old(self)@.status is Idle,
            final(self)@ == (MailboxView {
                status: if old(self)@.status is Idle {
                    MailboxStatus::Scheduled
                } else {
                    old(self)@.status
                },
                ..old(self)@
            });

    /// How many user messages wait in the mailbox.
    fn user_message_count(&self) -> (r: usize)
        ensures
            r == self@.user_messages.len();
}

/// The runtime's mailbox: two in-memory queues with the dispatch latch.
pub struct DefaultMailbox {
    pub system_messages: Vec<SystemMessage>,
    pub user_messages: Vec<MessageHandle>,
    pub status: MailboxStatus,
    pub suspended: bool,
    pub throughput: usize,
    pub bound: Option<usize>,
    pub posted_users: Ghost<Seq<MessageHandle>>,
    pub delivered_users: Ghost<Seq<MessageHandle>>,
    pub posted_systems: Ghost<Seq<SystemMessage>>,
    pub delivered_systems: Ghost<Seq<SystemMessage>>,
}

impl View for DefaultMailbox {
    type V = MailboxView;

    open spec fn view(&self) -> MailboxView {
        MailboxView {
            system_messages: self.system_messages@,
            user_messages: self.user_messages@,
            status: self.status,
            suspended: self.suspended,
            throughput: self.throughput as nat,
            bound: match self.bound {
                Some(b) => Some(b as nat),
                None => None,
            },
            posted_users: self.posted_users@,
            delivered_users: self.delivered_users@,
            posted_systems: self.posted_systems@,
            delivered_systems: self.delivered_systems@,
        }
    }
}

impl DefaultMailbox {
    /// Every message ever accepted — user or system — was either already
    /// handed to the invoker or still waits in its queue, in posting order;
    /// the throughput is positive and a bounded queue respects its bound.
    pub open spec fn wf(&self) -> bool {
        &&& self@.posted_users == self@.delivered_users + self@.user_messages
        &&& self@.posted_systems == self@.delivered_systems + self@.system_messages
        &&& self@.throughput >= 1
        &&& match self@.bound {
            Some(b) => self@.user_messages.len() <= b,
            None => true,
        }
    }

    /// A fresh idle mailbox. `bound` caps the user queue; `None` leaves it
    /// unbounded. `throughput` caps user deliveries per turn.
    pub fn new(throughput: usize, bound: Option<usize>) -> (r: Self)
        requires
            throughput >= 1,
        ensures
            r.wf(),
            r@.system_messages == Seq::<SystemMessage>::empty(),
            r@.user_messages == Seq::<MessageHandle>::empty(),
            r@.delivered_users == Seq::<MessageHandle>::empty(),
            r@.delivered_systems == Seq::<SystemMessage>::empty(),
            r@.status is Idle,
            !r@.suspended,
            r@.throughput == throughput as nat,
            r@.bound == (match bound {
                Some(b) => Some(b as nat),
                None => None::<nat>,
            }),
    {
        DefaultMailbox {
            system_messages: Vec::new(),
            user_messages: Vec::new(),
            status: MailboxStatus::Idle,
            suspended: false,
            throughput,
            bound,
            posted_users: Ghost(Seq::empty()),
            delivered_users: Ghost(Seq::empty()),
            posted_systems: Ghost(Seq::empty()),
            delivered_systems: Ghost(Seq::empty()),
        }
    }

    /// Claims the pending turn: the latch moves from scheduled to
    /// processing. At most one caller can win this transition, so turns on
    /// one mailbox never overlap.
    pub fn begin_turn(&mut self)
        requires
            old(self)@.status is Scheduled,
        ensures
            final(self)@ == (MailboxView { status: MailboxStatus::Processing, ..old(self)@ }),
    {
        self.status = MailboxStatus::Processing;
    }

    /// Hands out the oldest waiting system message. The running turn drains
    /// these before it touches any user message.
    pub fn pop_system(&mut self) -> (r: Option<SystemMessage>)
        requires
            old(self).wf(),
            old(self)@.status is Processing,
        ensures
            final(self).wf(),
            match r {
                Some(m) => old(self)@.system_messages.len() > 0 && m
                    == old(self)@.system_messages[0] && final(self)@ == (MailboxView {
                    system_messages: old(self)@.system_messages.drop_first(),
                    delivered_systems: old(self)@.delivered_systems.push(m),
                    ..old(self)@
                }),
                None => old(self)@.system_messages.len() == 0 && final(self)@ == old(self)@,
            },
    {
        if self.system_messages.len() == 0 {
            return None;
        }
        let m = self.system_messages.remove(0);
        proof {
            assert(self.system_messages@ =~= old(self).system_messages@.drop_first());
        }
        self.delivered_systems = Ghost(self.delivered_systems@.push(m));
        proof {
            assert(self@.posted_systems =~= self@.delivered_systems + self@.system_messages);
        }
        Some(m)
    }

    /// Hands out the oldest waiting user message and records the delivery.
    /// The turn may call this only with the system queue drained and the
    /// mailbox not suspended.
    pub fn pop_user(&mut self) -> (r: Option<MessageHandle>)
        requires
            old(self).wf(),
            old(self)@.status is Processing,
            old(self)@.system_messages.len() == 0,
            !old(self)@.suspended,
        ensures
            final(self).wf(),
            match r {
                Some(m) => old(self)@.user_messages.len() > 0 && m
                    == old(self)@.user_messages[0] && final(self)@ == (MailboxView {
                    user_messages: old(self)@.user_messages.drop_first(),
                    delivered_users: old(self)@.delivered_users.push(m),
                    ..old(self)@
                }),
                None => old(self)@.user_messages.len() == 0 && final(self)@ == old(self)@,
            },
    {
        if self.user_messages.len() == 0 {
            return None;
        }
        let m = self.user_messages.remove(0);
        proof {
            assert(self.user_messages@ =~= old(self).user_messages@.drop_first());
        }
        self.delivered_users = Ghost(self.delivered_users@.push(m));
        proof {
            assert(self@.posted_users =~= self@.delivered_users + self@.user_messages);
        }
        Some(m)
    }

    /// Marks the mailbox suspended: the turn stops delivering user messages
    /// until a resume. System messages keep flowing.
    pub fn suspend(&mut self)
        ensures
            final(self)@ == (MailboxView { suspended: true, ..old(self)@ }),
    {
        self.suspended = true;
    }

    /// Lifts a suspension.
    pub fn resume(&mut self)
        ensures
            final(self)@ == (MailboxView { suspended: false, ..old(self)@ }),
    {
        self.suspended = false;
    }

    /// True while the mailbox is suspended.
    pub fn is_suspended(&self) -> (r: bool)
        ensures
            r == self@.suspended,
    {
        self.suspended
    }

    /// How many user messages one turn may deliver.
    pub fn get_throughput(&self) -> (r: usize)
        ensures
            r == self@.throughput,
    {
        self.throughput
    }

    /// How many system messages wait.
    pub fn system_message_count(&self) -> (r: usize)
        ensures
            r == self@.system_messages.len(),
    {
        self.system_messages.len()
    }

    /// Releases the latch at the end of a turn. If traffic is waiting the
    /// mailbox is rescheduled at once and the caller must hand it to the
    /// dispatcher again; otherwise the latch idles.
    pub fn end_turn(&mut self) -> (reschedule: bool)
        requires
            old(self)@.status is Processing,
        ensures
            reschedule == (old(self)@.system_messages.len() > 0 || (!old(self)@.suspended
                && old(self)@.user_messages.len() > 0)),
            final(self)@ == (MailboxView {
                status: if reschedule {
                    MailboxStatus::Scheduled
                } else {
                    MailboxStatus::Idle
                },
                ..old(self)@
            }),
    {
        let more = self.system_messages.len() > 0 || (!self.suspended && self.user_messages.len()
            > 0);
        if more {
            self.status = MailboxStatus::Scheduled;
        } else {
            self.status = MailboxStatus::Idle;
        }
        more
    }
}

impl Mailbox for DefaultMailbox {
    fn post_user_message(&mut self, message: MessageHandle) -> (r: PostOutcome) {
        let accepted = match self.bound {
            Some(b) => self.user_messages.len() < b,
            None => true,
        };
        if !accepted {
            return PostOutcome { accepted: false, schedule: false };
        }
        self.posted_users = Ghost(self.posted_users@.push(message));
        let ghost mv = message@;
        self.user_messages.push(message);
        let schedule = match self.status {
            MailboxStatus::Idle => {
                self.status = MailboxStatus::Scheduled;
                true
            },
            _ => false,
        };
        PostOutcome { accepted: true, schedule }
    }

    fn post_system_message(&mut self, message: SystemMessage) -> (schedule: bool) {
        self.posted_systems = Ghost(self.posted_systems@.push(message));
        self.system_messages.push(message);
        match self.status {
            MailboxStatus::Idle => {
                self.status = MailboxStatus::Scheduled;
                true
            },
            _ => false,
        }
    }

    fn start(&mut self) -> (schedule: bool) {
        match self.status {
            MailboxStatus::Idle => {
                self.status = MailboxStatus::Scheduled;
                true
            },
            _ => false,
        }
    }

    fn user_message_count(&self) -> (r: usize) {
        self.user_messages.len()
    }
}

/// A mailbox with an unbounded user queue, the default.
pub fn unbounded_mailbox(throughput: usize) -> (r: DefaultMailbox)
    requires
        throughput >= 1,
    ensures
        r.wf(),
        r@.bound is None,
        r@.status is Idle,
        !r@.suspended,
        r@.throughput == throughput as nat,
        r@.system_messages.len() == 0,
        r@.user_messages.len() == 0,
        r@.delivered_users.len() == 0,
{
    DefaultMailbox::new(throughput, None)
}

/// A mailbox whose user queue holds at most `size` messages; a post beyond
/// that is dropped, never blocking the sender.
pub fn bounded_mailbox(throughput: usize, size: usize) -> (r: DefaultMailbox)
    requires
        throughput >= 1,
    ensures
        r.wf(),
        r@.bound == Some(size as nat),
        r@.status is Idle,
        !r@.suspended,
        r@.throughput == throughput as nat,
        r@.system_messages.len() == 0,
        r@.user_messages.len() == 0,
        r@.delivered_users.len() == 0,
{
    DefaultMailbox::new(throughput, Some(size))
}

/// Deliveries happen in posting order, on both queues: what has been handed
/// to the invoker is exactly the oldest prefix of what was accepted, and
/// together with the waiting queue it accounts for every accepted message.
pub proof fn lemma_mailbox_fifo(m: DefaultMailbox)
    requires
        m.wf(),
    ensures
        m@.delivered_users == m@.posted_users.take(m@.delivered_users.len() as int),
        m@.delivered_users.len() + m@.user_messages.len() == m@.posted_users.len(),
        m@.delivered_systems == m@.posted_systems.take(m@.delivered_systems.len() as int),
        m@.delivered_systems.len() + m@.system_messages.len() == m@.posted_systems.len(),
{
    assert(m@.delivered_users =~= m@.posted_users.take(m@.delivered_users.len() as int));
    assert(m@.delivered_systems =~= m@.posted_systems.take(m@.delivered_systems.len() as int));
}

} // verus!
