//! Rollup counters for one function within one invocation.
//!
//! Three counters are kept: pending, succeeded, and failed tasks.  A task
//! entering a terminal state decrements the pending counter only when it is
//! positive: state written by an older schema version may never have
//! recorded a pending count, and that guard tolerates such data instead of
//! underflowing.  The terminal counters never decrease.

use vstd::prelude::*;

verus! {

/// One observation fed into the counters.
#[derive(Debug, Clone, Copy, PartialEq, Eq, Structural)]
pub enum TaskEvent {
    Pending,
    Succeeded,
    Failed,
}

/// How one event transforms a (pending, succeeded, failed) triple.
pub open spec fn apply_event(c: (int, int, int), e: TaskEvent) -> (int, int, int) {
    match e {
        TaskEvent::Pending => (c.0 + 1, c.1, c.2),
        TaskEvent::Succeeded => ((if c.0 > 0 { c.0 - 1 } else { c.0 }), c.1 + 1, c.2),
        TaskEvent::Failed => ((if c.0 > 0 { c.0 - 1 } else { c.0 }), c.1, c.2 + 1),
    }
}

/// The counters reached from zero by a sequence of events.
pub open spec fn counts_after(events: Seq<TaskEvent>) -> (int, int, int)
    decreases events.len(),
{
    if events.len() == 0 {
        (0, 0, 0)
    } else {
        apply_event(counts_after(events.drop_last()), events.last())
    }
}

/// However the counters are driven, no component ever goes negative: the
/// pending counter is only decremented when it is positive, and the
/// terminal counters only grow.
pub proof fn lemma_counts_never_negative(events: Seq<TaskEvent>)
    ensures
        counts_after(events).0 >= 0,
        counts_after(events).1 >= 0,
        counts_after(events).2 >= 0,
    decreases events.len(),
{
    if events.len() > 0 {
        lemma_counts_never_negative(events.drop_last());
    }
}

/// The sum of succeeded and failed tasks never decreases as events arrive.
pub proof fn lemma_terminal_counts_monotone(events: Seq<TaskEvent>, more: TaskEvent)
    ensures
        counts_after(events.push(more)).1 + counts_after(events.push(more)).2 >= counts_after(
            events,
        ).1 + counts_after(events).2,
{
    assert(events.push(more).drop_last() =~= events);
}

/// Per-function task counters within one invocation.
#[derive(Debug, Clone, PartialEq, Eq, Structural, Hash)]
pub struct TaskAnalytics {
    pub pending_tasks: u64,
    pub successful_tasks: u64,
    pub failed_tasks: u64,
}

impl Default for TaskAnalytics {
    fn default() -> (r: Self)
        ensures
            r == (TaskAnalytics { pending_tasks: 0, successful_tasks: 0, failed_tasks: 0 }),
    {
        TaskAnalytics { pending_tasks: 0, successful_tasks: 0, failed_tasks: 0 }
    }
}

impl TaskAnalytics {
    /// The counters as a mathematical triple.
    pub open spec fn counts(&self) -> (int, int, int) {
        (self.pending_tasks as int, self.successful_tasks as int, self.failed_tasks as int)
    }

    /// Records a newly created task.
    pub fn pending(&mut self)
        requires
            old(self).pending_tasks < u64::MAX,
        ensures
            final(self).counts() == apply_event(old(self).counts(), TaskEvent::Pending),
    {
        self.pending_tasks = self.pending_tasks + 1;
    }

    /// Records a task that finished successfully; the pending counter is
    /// decremented only when it is positive.
    pub fn success(&mut self)
        requires
            old(self).successful_tasks < u64::MAX,
        ensures
            final(self).counts() == apply_event(old(self).counts(), TaskEvent::Succeeded),
    {
        self.successful_tasks = self.successful_tasks + 1;
        if self.pending_tasks > 0 {
            self.pending_tasks = self.pending_tasks - 1;
        }
    }

    /// Records a task that failed; the pending counter is decremented only
    /// when it is positive.
    pub fn fail(&mut self)
        requires
            old(self).failed_tasks < u64::MAX,
        ensures
            final(self).counts() == apply_event(old(self).counts(), TaskEvent::Failed),
    {
        self.failed_tasks = self.failed_tasks + 1;
        if self.pending_tasks > 0 {
            self.pending_tasks = self.pending_tasks - 1;
        }
    }
}

} // verus!
