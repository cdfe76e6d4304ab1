//! The bounded scheduler: it launches one job for each block of the work
//! queue, highest number first, and lets the caller launch more only while
//! the number of jobs in flight is within the ceiling.
//!
//! The scheduler waits for nothing itself. The caller reports what happened
//! as an [`Event`], and is told what to do as an [`Action`].

use crate::queue::{ascending, block_span, WorkQueue};
use vstd::prelude::*;

verus! {

/// How a job that was waited for came to its end.
#[derive(Clone, Copy, Debug, PartialEq, Eq, Structural)]
pub enum JoinOutcome {
    /// The job ran to its end. Calls that failed inside it do not change
    /// that.
    Completed,
    /// The job could not be driven to its end.
    Failed,
}

/// What the caller reports to the scheduler.
#[derive(Clone, Copy, Debug, PartialEq, Eq, Structural)]
pub enum Event {
    /// Nothing new: the caller has done what it was told and asks again.
    Poll,
    /// One of the jobs in flight has come to its end.
    JobFinished(JoinOutcome),
}

/// What the scheduler tells the caller to do.
#[derive(Clone, Copy, Debug, PartialEq, Eq, Structural)]
pub enum Action {
    /// Launch a job for this block. The scheduler counts it as in flight
    /// from now on.
    Launch(i64),
    /// Wait until any one job in flight has come to its end, and report it.
    Wait,
    /// Every block had its job and every job has come to its end.
    Done,
    /// A job failed: the run is over.
    Abort,
}

/// The scheduler as a mathematical value.
pub struct SchedulerState {
    /// The work queue, lowest number first.
    pub pending: Seq<i64>,
    /// How many jobs were launched and have not been reported as finished.
    pub in_flight: nat,
    /// How many jobs were reported as finished.
    pub finished: nat,
    /// How many blocks the queue held at the start.
    pub total: nat,
    /// The concurrency ceiling.
    pub ceiling: nat,
    /// Whether a job has failed.
    pub aborted: bool,
}

impl SchedulerState {
    /// The scheduler at the start of a run over `queue`.
    pub open spec fn init(queue: Seq<i64>, ceiling: nat) -> Self {
        SchedulerState {
            pending: queue,
            in_flight: 0,
            finished: 0,
            total: queue.len(),
            ceiling,
            aborted: false,
        }
    }

    /// What holds of the scheduler at every point of a run: each block of
    /// the queue as it was at the start is waiting, in flight or finished;
    /// and the jobs in flight exceed the ceiling by one at most.
    pub open spec fn inv(self) -> bool {
        &&& self.pending.len() + self.in_flight + self.finished == self.total
        &&& self.in_flight <= self.ceiling + 1
    }

    /// The state once `event` is taken in. A finished job leaves the jobs in
    /// flight; a report that comes while none is in flight changes nothing.
    pub open spec fn absorb(self, event: Event) -> Self {
        match event {
            Event::JobFinished(outcome) if self.in_flight > 0 => SchedulerState {
                in_flight: (self.in_flight - 1) as nat,
                finished: self.finished + 1,
                aborted: self.aborted || outcome == JoinOutcome::Failed,
                ..self
            },
            _ => self,
        }
    }

    /// Whether a job must come to its end before anything else is done: the
    /// jobs in flight exceed the ceiling, or the queue is empty and jobs are
    /// still in flight.
    pub open spec fn must_drain(self) -> bool {
        self.in_flight > self.ceiling || (self.pending.len() == 0 && self.in_flight > 0)
    }

    /// What the caller is told in this state.
    pub open spec fn decide(self) -> Action {
        if self.aborted {
            Action::Abort
        } else if self.must_drain() {
            Action::Wait
        } else if self.pending.len() > 0 {
            Action::Launch(self.pending.last())
        } else {
            Action::Done
        }
    }

    /// The state once `action` is handed out: a launch takes the highest
    /// number off the queue and adds a job in flight.
    pub open spec fn commit(self, action: Action) -> Self {
        match action {
            Action::Launch(_) => SchedulerState {
                pending: self.pending.drop_last(),
                in_flight: self.in_flight + 1,
                ..self
            },
            _ => self,
        }
    }

    /// One step: take `event` in, decide, and count a launch.
    pub open spec fn step(self, event: Event) -> (Self, Action) {
        let taken = self.absorb(event);
        let action = taken.decide();
        (taken.commit(action), action)
    }

    /// The state that the events of `events`, taken one step each, lead to
    /// from this state.
    pub open spec fn after(self, events: Seq<Event>) -> Self
        decreases events.len(),
    {
        if events.len() == 0 {
            self
        } else {
            self.after(events.drop_last()).step(events.last()).0
        }
    }

    /// The actions that the scheduler hands out on the events of `events`,
    /// one for each.
    pub open spec fn trace(self, events: Seq<Event>) -> Seq<Action>
        decreases events.len(),
    {
        if events.len() == 0 {
            Seq::empty()
        } else {
            self.trace(events.drop_last()).push(
                self.after(events.drop_last()).step(events.last()).1,
            )
        }
    }
}

/// The blocks that `actions` launch, in the order of the launches.
pub open spec fn launched(actions: Seq<Action>) -> Seq<i64>
    decreases actions.len(),
{
    if actions.len() == 0 {
        Seq::empty()
    } else {
        match actions.last() {
            Action::Launch(number) => launched(actions.drop_last()).push(number),
            _ => launched(actions.drop_last()),
        }
    }
}

/// The bounded scheduler of one run.
#[derive(Debug)]
pub struct Scheduler {
    /// The work queue.
    pending: WorkQueue,
    /// How many jobs were reported as finished.
    finished: usize,
    /// How many blocks the queue held at the start. The jobs in flight are
    /// those of the blocks that neither wait nor have finished.
    total: usize,
    /// The concurrency ceiling.
    ceiling: usize,
    /// Whether a job has failed.
    aborted: bool,
}

impl View for Scheduler {
    type V = SchedulerState;

    closed spec fn view(&self) -> SchedulerState {
        SchedulerState {
            pending: self.pending@,
            in_flight: (self.total - self.pending@.len() - self.finished) as nat,
            finished: self.finished as nat,
            total: self.total as nat,
            ceiling: self.ceiling as nat,
            aborted: self.aborted,
        }
    }
}

impl Scheduler {
    /// The blocks that wait and those that have finished are within the
    /// total, and the rest, the jobs in flight, exceed the ceiling by one at
    /// most.
    #[verifier::type_invariant]
    spec fn valid(&self) -> bool {
        &&& self.pending@.len() + self.finished <= self.total
        &&& self.total - self.pending@.len() - self.finished <= self.ceiling + 1
    }

    /// The scheduler for a run over `queue` with at most `ceiling` jobs in
    /// flight while more are launched.
    pub fn new(queue: WorkQueue, ceiling: usize) -> (scheduler: Self)
        ensures
            scheduler@ == SchedulerState::init(queue@, ceiling as nat),
    {
        let total: usize = queue.len();
        Scheduler { pending: queue, finished: 0, total, ceiling, aborted: false }
    }

    /// Takes `event` in and says what to do next.
    ///
    /// After a failed job the answer is `Abort`, now and ever after. Else,
    /// while the jobs in flight exceed the ceiling, or the queue is empty and
    /// jobs are in flight, it is `Wait`. Else the highest block left is
    /// launched, and when none is left the run is `Done`.
    pub fn step(&mut self, event: Event) -> (action: Action)
        ensures
            old(self)@.inv(),
            final(self)@.inv(),
            final(self)@ == old(self)@.step(event).0,
            action == old(self)@.step(event).1,
        no_unwind
    {
        proof {
            use_type_invariant(&*self);
        }
        match event {
            Event::JobFinished(outcome) => {
                if self.in_flight() > 0 {
                    self.finished = self.finished + 1;
                    match outcome {
                        JoinOutcome::Failed => {
                            self.aborted = true;
                        },
                        JoinOutcome::Completed => {},
                    }
                }
            },
            Event::Poll => {},
        }
        let in_flight: usize = self.in_flight();
        if self.aborted {
            Action::Abort
        } else if in_flight > self.ceiling || (self.pending.is_empty() && in_flight > 0) {
            Action::Wait
        } else {
            match self.pending.pop() {
                Some(number) => Action::Launch(number),
                None => Action::Done,
            }
        }
    }

    /// How many blocks wait for a job.
    pub fn pending(&self) -> (n: usize)
        ensures
            n == self@.pending.len(),
        no_unwind
    {
        self.pending.len()
    }

    /// How many jobs are in flight.
    pub fn in_flight(&self) -> (n: usize)
        ensures
            n == self@.in_flight,
            self@.inv(),
        no_unwind
    {
        proof {
            use_type_invariant(self);
        }
        self.total - self.pending.len() - self.finished
    }

    /// How many jobs have come to their end.
    pub fn finished(&self) -> (n: usize)
        ensures
            n == self@.finished,
    {
        self.finished
    }

    /// How many blocks the queue held at the start.
    pub fn total(&self) -> (n: usize)
        ensures
            n == self@.total,
    {
        self.total
    }

    /// The concurrency ceiling.
    pub fn ceiling(&self) -> (n: usize)
        ensures
            n == self@.ceiling,
    {
        self.ceiling
    }

    /// Whether a job has failed.
    pub fn is_aborted(&self) -> (aborted: bool)
        ensures
            aborted == self@.aborted,
    {
        self.aborted
    }
}

/// What a run keeps true from any state that satisfies the invariant: the
/// invariant itself, the ceiling and the total, and that the launches so far
/// are the blocks taken off the high end of the queue, highest first.
pub proof fn law_run_accounts(start: SchedulerState, events: Seq<Event>)
    requires
        start.inv(),
    ensures
        ({
            let end = start.after(events);
            let jobs = launched(start.trace(events));
            &&& end.inv()
            &&& end.total == start.total
            &&& end.ceiling == start.ceiling
            &&& start.trace(events).len() == events.len()
            &&& end.pending.len() <= start.pending.len()
            &&& end.pending == start.pending.take(end.pending.len() as int)
            &&& jobs.len() == start.pending.len() - end.pending.len()
            &&& end.in_flight + end.finished == start.in_flight + start.finished + jobs.len()
            &&& forall|i: int|
                0 <= i < jobs.len() ==> jobs[i] == start.pending[start.pending.len() - 1 - i]
        }),
    decreases events.len(),
{
    if events.len() > 0 {
        let earlier = events.drop_last();
        law_run_accounts(start, earlier);
        let action = start.after(earlier).step(events.last()).1;
        assert(start.trace(earlier).push(action).drop_last() =~= start.trace(earlier));
    }
}

/// The scheduler tells the caller to wait only while a job is in flight, so
/// that a wait always ends with a finished job to report.
pub proof fn law_wait_only_for_jobs(state: SchedulerState, event: Event)
    ensures
        state.step(event).1 == Action::Wait ==> state.step(event).0.in_flight > 0,
{
}

/// A run that reaches `Done` has launched one job for each block of the
/// queue and has seen each of them finish: nothing waits, nothing is in
/// flight.
pub proof fn law_done_means_all_launched(queue: Seq<i64>, ceiling: nat, events: Seq<Event>)
    requires
        events.len() > 0,
        SchedulerState::init(queue, ceiling).trace(events).last() == Action::Done,
    ensures
        ({
            let start = SchedulerState::init(queue, ceiling);
            let end = start.after(events);
            &&& launched(start.trace(events)).len() == queue.len()
            &&& end.pending.len() == 0
            &&& end.in_flight == 0
            &&& end.finished == queue.len()
        }),
{
    let start = SchedulerState::init(queue, ceiling);
    law_run_accounts(start, events);
    law_run_accounts(start, events.drop_last());
}

/// At every point of a run the jobs in flight exceed the ceiling by one at
/// most: a job is launched only while they are within the ceiling, and the
/// next thing then is to wait. The blocks that wait, are in flight or have
/// finished always add up to the queue as it was at the start.
pub proof fn law_window_bounded(queue: Seq<i64>, ceiling: nat, events: Seq<Event>)
    ensures
        ({
            let end = SchedulerState::init(queue, ceiling).after(events);
            &&& end.in_flight <= ceiling + 1
            &&& end.pending.len() + end.in_flight + end.finished == queue.len()
        }),
{
    law_run_accounts(SchedulerState::init(queue, ceiling), events);
}

/// Where the ceiling is no less than the number of blocks, the jobs in
/// flight never exceed the ceiling.
pub proof fn law_window_within_ceiling(queue: Seq<i64>, ceiling: nat, events: Seq<Event>)
    requires
        queue.len() <= ceiling,
    ensures
        SchedulerState::init(queue, ceiling).after(events).in_flight <= ceiling,
{
    law_run_accounts(SchedulerState::init(queue, ceiling), events);
}

/// The blocks are launched in strictly descending order of their numbers,
/// from the highest of the queue down, whatever the order in which the jobs
/// finish.
pub proof fn law_launches_descend(queue: Seq<i64>, ceiling: nat, events: Seq<Event>)
    requires
        ascending(queue),
    ensures
        ({
            let jobs = launched(SchedulerState::init(queue, ceiling).trace(events));
            &&& jobs.len() <= queue.len()
            &&& forall|i: int| 0 <= i < jobs.len() ==> jobs[i] == queue[queue.len() - 1 - i]
            &&& forall|i: int, j: int| 0 <= i < j < jobs.len() ==> jobs[i] > jobs[j]
        }),
{
    law_run_accounts(SchedulerState::init(queue, ceiling), events);
}

/// A run over the `width` blocks below `latest` that reaches `Done` has
/// launched a job for every block from `latest - width` up to `latest - 1`,
/// for each of them exactly once and for no other block: the launch at
/// position `i` is that of block `latest - 1 - i`.
pub proof fn law_each_block_once(latest: i64, width: nat, ceiling: nat, events: Seq<Event>)
    requires
        latest - width >= i64::MIN,
        events.len() > 0,
        SchedulerState::init(block_span(latest, width), ceiling).trace(events).last()
            == Action::Done,
    ensures
        ({
            let jobs = launched(
                SchedulerState::init(block_span(latest, width), ceiling).trace(events),
            );
            &&& jobs.len() == width
            &&& forall|i: int| 0 <= i < width ==> jobs[i] == latest - 1 - i
            &&& jobs.no_duplicates()
            &&& forall|block: i64| latest - width <= block < latest <==> jobs.contains(block)
        }),
{
    let queue = block_span(latest, width);
    let start = SchedulerState::init(queue, ceiling);
    law_done_means_all_launched(queue, ceiling, events);
    law_run_accounts(start, events);
    let jobs = launched(start.trace(events));
    assert forall|block: i64| latest - width <= block < latest implies jobs.contains(block) by {
        assert(jobs[latest - 1 - block] == block);
    }
}

} // verus!
