//! The one-for-one supervision strategy.
//!
//! When a child fails, the decider maps the failure to a directive. A restart
//! directive is rate-limited: once strictly more than `max_retries` failures
//! fall within the trailing window, the child is stopped instead and its
//! statistics reset. `max_retries == 0` means the child is never restarted.

use vstd::prelude::*;

use crate::restart_statistics::{spec_num_failures, RestartStatistics};

verus! {

/// The outcome of a supervision decision.
#[derive(Debug, Clone, Copy, PartialEq, Eq, Structural)]
pub enum Directive {
    /// Keep the child's state and resume its message processing.
    Resume,
    /// Recreate the child from its props.
    Restart,
    /// Stop the child for good.
    Stop,
    /// Pass the failure on to the supervisor's own parent.
    Escalate,
}

/// What the supervisor must do with the failing child.
#[derive(Debug, Clone, Copy, PartialEq, Eq, Structural)]
pub enum SupervisorAction {
    /// Resume the child.
    ResumeChild,
    /// Restart the child from its props.
    RestartChild,
    /// Stop the child; its watchers get a termination notice.
    StopChild,
    /// Send the failure upward to the supervisor's own parent.
    Escalate,
}

/// Restart rate-limiting: whether this restart request must stop the child
/// instead, given the failures recorded so far and the one happening at `now`.
pub open spec fn spec_should_stop(
    max_retries: u32,
    window: u64,
    times: Seq<u64>,
    now: u64,
) -> bool {
    max_retries == 0 || spec_num_failures(times.push(now), now, window) > max_retries
}

/// The decision a one-for-one strategy takes for a failure at `now`, given
/// the child's recorded failure times.
pub open spec fn spec_decision(
    decider: Directive,
    max_retries: u32,
    window: u64,
    times: Seq<u64>,
    now: u64,
) -> SupervisorAction {
    match decider {
        Directive::Resume => SupervisorAction::ResumeChild,
        Directive::Stop => SupervisorAction::StopChild,
        Directive::Escalate => SupervisorAction::Escalate,
        Directive::Restart => if spec_should_stop(max_retries, window, times, now) {
            SupervisorAction::StopChild
        } else {
            SupervisorAction::RestartChild
        },
    }
}

/// The failure times after the decision: a stop resets them, a restart keeps
/// the newly recorded failure, everything else leaves them untouched.
pub open spec fn spec_stats_after(
    decider: Directive,
    max_retries: u32,
    window: u64,
    times: Seq<u64>,
    now: u64,
) -> Seq<u64> {
    match decider {
        Directive::Restart => if max_retries == 0 {
            times
        } else if spec_num_failures(times.push(now), now, window) > max_retries {
            Seq::empty()
        } else {
            times.push(now)
        },
        _ => times,
    }
}

/// Supervision of each child on its own: a failure of one child never touches
/// its siblings. The decider maps every failure reason to one directive.
#[derive(Debug, Clone, Copy, PartialEq, Eq, Structural)]
pub struct OneForOneStrategy {
    pub max_retries: u32,
    pub within_duration_millis: u64,
    pub decider: Directive,
}

impl OneForOneStrategy {
    /// A strategy that allows `max_retries` restarts within any window of
    /// `within_duration_millis`, deciding every failure with `decider`.
    pub fn new(max_retries: u32, within_duration_millis: u64, decider: Directive) -> (r: Self)
        ensures
            r == (OneForOneStrategy { max_retries, within_duration_millis, decider }),
    {
        OneForOneStrategy { max_retries, within_duration_millis, decider }
    }

    /// Records the failure at `now` and decides whether the child must stop
    /// instead of restarting. Stopping resets the statistics.
    fn should_stop(&self, rs: &mut RestartStatistics, now: u64) -> (r: bool)
        ensures
            r == spec_should_stop(self.max_retries, self.within_duration_millis, old(rs)@, now),
            final(rs)@ == spec_stats_after(
                Directive::Restart,
                self.max_retries,
                self.within_duration_millis,
                old(rs)@,
                now,
            ),
    {
        if self.max_retries == 0 {
            true
        } else {
            rs.fail(now);
            if rs.number_of_failures(now, self.within_duration_millis) > self.max_retries as usize
            {
                rs.reset();
                true
            } else {
                false
            }
        }
    }

    /// Decides what to do about a child failure that happened at `now`,
    /// updating the child's restart statistics along the way.
    pub fn handle_failure(&self, rs: &mut RestartStatistics, now: u64) -> (action:
        SupervisorAction)
        ensures
            action == spec_decision(
                self.decider,
                self.max_retries,
                self.within_duration_millis,
                old(rs)@,
                now,
            ),
            final(rs)@ == spec_stats_after(
                self.decider,
                self.max_retries,
                self.within_duration_millis,
                old(rs)@,
                now,
            ),
    {
        match self.decider {
            Directive::Resume => SupervisorAction::ResumeChild,
            Directive::Stop => SupervisorAction::StopChild,
            Directive::Escalate => SupervisorAction::Escalate,
            Directive::Restart => {
                if self.should_stop(rs, now) {
                    SupervisorAction::StopChild
                } else {
                    SupervisorAction::RestartChild
                }
            },
        }
    }
}

/// After strictly more than `max_retries` failures within a window of length
/// `within` ending at the newest failure, a restart decision stops the child
/// instead of restarting it; with `max_retries == 0` it never restarts.
pub proof fn lemma_restart_limit(
    max_retries: u32,
    within: u64,
    times: Seq<u64>,
    now: u64,
)
    requires
        spec_num_failures(times.push(now), now, within) > max_retries || max_retries == 0,
    ensures
        spec_decision(Directive::Restart, max_retries, within, times, now)
            == SupervisorAction::StopChild,
{
}

/// Supervision of the whole sibling set at once: the decision model is the
/// same as one-for-one, but a restart or stop the supervisor carries out
/// applies to every child, not only to the failing one.
#[derive(Debug, Clone, Copy, PartialEq, Eq, Structural)]
pub struct AllForOneStrategy {
    pub max_retries: u32,
    pub within_duration_millis: u64,
    pub decider: Directive,
}

impl AllForOneStrategy {
    /// A strategy that allows `max_retries` restarts of the sibling set
    /// within any window of `within_duration_millis`.
    pub fn new(max_retries: u32, within_duration_millis: u64, decider: Directive) -> (r: Self)
        ensures
            r == (AllForOneStrategy { max_retries, within_duration_millis, decider }),
    {
        AllForOneStrategy { max_retries, within_duration_millis, decider }
    }

    /// Decides what to do about a child failure at `now` — the action is to
    /// be applied to the full sibling set — updating the failing child's
    /// restart statistics along the way.
    pub fn handle_failure(&self, rs: &mut RestartStatistics, now: u64) -> (action:
        SupervisorAction)
        ensures
            action == spec_decision(
                self.decider,
                self.max_retries,
                self.within_duration_millis,
                old(rs)@,
                now,
            ),
            final(rs)@ == spec_stats_after(
                self.decider,
                self.max_retries,
                self.within_duration_millis,
                old(rs)@,
                now,
            ),
    {
        let one = OneForOneStrategy {
            max_retries: self.max_retries,
            within_duration_millis: self.within_duration_millis,
            decider: self.decider,
        };
        one.handle_failure(rs, now)
    }
}

/// As long as at most `max_retries` failures fall inside the window, and the
/// limit is not zero, a restart decision indeed restarts the child.
pub proof fn lemma_restart_allowed(
    max_retries: u32,
    within: u64,
    times: Seq<u64>,
    now: u64,
)
    requires
        max_retries > 0,
        spec_num_failures(times.push(now), now, within) <= max_retries,
    ensures
        spec_decision(Directive::Restart, max_retries, within, times, now)
            == SupervisorAction::RestartChild,
{
}

} // verus!
