//! One run of the backfill from its start: learn the height of the chain,
//! fill the work queue with the blocks below it, and let the scheduler work
//! the queue off.
//!
//! The run performs nothing itself. The caller reports what happened as a
//! [`RunEvent`] and is told what to do as a [`RunAction`]; a run that cannot
//! go on says so with [`RunAction::Abort`] and leaves it to the caller how
//! to end.

use crate::height::{
    height_of, latest_height, law_height_not_negative, HeightError, HeightReply,
};
use crate::queue::{block_span, WorkQueue};
use crate::scheduler::{Action, Event, JoinOutcome, Scheduler, SchedulerState};
use vstd::prelude::*;

verus! {

/// How many blocks below the height a run fetches.
pub const RANGE_WIDTH: u32 = 44_000;

/// The concurrency ceiling of a run.
pub const CONCURRENCY: usize = 10;

/// Why a run cannot go on.
#[derive(Clone, Copy, Debug, PartialEq, Eq, Structural)]
pub enum Fatal {
    /// The height of the chain is not known.
    Height(HeightError),
    /// A job could not be driven to its end.
    JobFailed,
}

/// What the caller reports to the run.
#[derive(Clone, Debug, PartialEq, Eq)]
pub enum RunEvent {
    /// Nothing new: the caller has done what it was told and asks again.
    Poll,
    /// The reply to the height request.
    Height(HeightReply),
    /// One of the jobs in flight has come to its end.
    JobFinished(JoinOutcome),
}

/// What the run tells the caller to do.
#[derive(Clone, Copy, Debug, PartialEq, Eq, Structural)]
pub enum RunAction {
    /// Make the height request and report the reply.
    ResolveHeight,
    /// Launch a job for this block.
    Launch(i64),
    /// Wait until any one job in flight has come to its end, and report it.
    Wait,
    /// Every block of the range had its job and every job has come to its
    /// end.
    Done,
    /// The run is over for this reason.
    Abort(Fatal),
}

/// Where a run stands.
#[derive(Clone, Copy, Debug, PartialEq, Eq, Structural)]
pub enum Phase {
    /// The height is not known yet.
    AwaitingHeight,
    /// The height is `latest`, and the scheduler works on the blocks below
    /// it.
    Running { latest: i64 },
    /// The run could not start, because the height is not known.
    Failed(HeightError),
}

/// What the scheduler is told when the run is told `event`: a reply to the
/// height request that comes late counts as nothing new.
pub open spec fn scheduler_event(event: RunEvent) -> Event {
    match event {
        RunEvent::JobFinished(outcome) => Event::JobFinished(outcome),
        _ => Event::Poll,
    }
}

/// What the run tells the caller when the scheduler says `action`.
pub open spec fn run_action(action: Action) -> RunAction {
    match action {
        Action::Launch(number) => RunAction::Launch(number),
        Action::Wait => RunAction::Wait,
        Action::Done => RunAction::Done,
        Action::Abort => RunAction::Abort(Fatal::JobFailed),
    }
}

/// A run as a mathematical value.
pub struct BackfillState {
    /// How many blocks below the height the run fetches.
    pub width: u32,
    /// The concurrency ceiling.
    pub ceiling: nat,
    /// Where the run stands.
    pub phase: Phase,
    /// The scheduler; it has an empty queue until the height is known.
    pub scheduler: SchedulerState,
}

impl BackfillState {
    /// The run before anything has happened.
    pub open spec fn init(width: u32, ceiling: nat) -> Self {
        BackfillState {
            width,
            ceiling,
            phase: Phase::AwaitingHeight,
            scheduler: SchedulerState::init(Seq::empty(), ceiling),
        }
    }

    /// What holds of a run at every point.
    pub open spec fn inv(self) -> bool {
        &&& self.scheduler.inv()
        &&& self.scheduler.ceiling == self.ceiling
        &&& match self.phase {
            Phase::Running { latest } => {
                &&& latest >= 0
                &&& self.scheduler.total == self.width
            },
            _ => self.scheduler == SchedulerState::init(Seq::empty(), self.ceiling),
        }
    }

    /// The run once the height is known to be `latest`: the scheduler starts
    /// on the `width` blocks below `latest` and takes its first decision.
    pub open spec fn begin(self, latest: i64) -> (Self, RunAction) {
        let (scheduler, action) = SchedulerState::init(
            block_span(latest, self.width as nat),
            self.ceiling,
        ).step(Event::Poll);
        (BackfillState { phase: Phase::Running { latest }, scheduler, ..self }, run_action(action))
    }

    /// One step of the run.
    ///
    /// Until the height is known, the answer to everything but the reply to
    /// the height request is to make that request. A reply that gives no
    /// height ends the run before anything is launched. Once the height is
    /// known the scheduler decides. A run that could not start stays so.
    pub open spec fn step(self, event: RunEvent) -> (Self, RunAction) {
        match self.phase {
            Phase::AwaitingHeight => match event {
                RunEvent::Height(reply) => match height_of(reply) {
                    Ok(latest) => self.begin(latest),
                    Err(error) => (
                        BackfillState { phase: Phase::Failed(error), ..self },
                        RunAction::Abort(Fatal::Height(error)),
                    ),
                },
                _ => (self, RunAction::ResolveHeight),
            },
            Phase::Running { latest } => {
                let (scheduler, action) = self.scheduler.step(scheduler_event(event));
                (BackfillState { scheduler, ..self }, run_action(action))
            },
            Phase::Failed(error) => (self, RunAction::Abort(Fatal::Height(error))),
        }
    }

    /// The state that the events of `events`, taken one step each, lead to
    /// from this state.
    pub open spec fn after(self, events: Seq<RunEvent>) -> Self
        decreases events.len(),
    {
        if events.len() == 0 {
            self
        } else {
            self.after(events.drop_last()).step(events.last()).0
        }
    }

    /// The actions that the run hands out on the events of `events`, one for
    /// each.
    pub open spec fn trace(self, events: Seq<RunEvent>) -> Seq<RunAction>
        decreases events.len(),
    {
        if events.len() == 0 {
            Seq::empty()
        } else {
            self.trace(events.drop_last()).push(
                self.after(events.drop_last()).step(events.last()).1,
            )
        }
    }
}

/// The blocks that `actions` launch, in the order of the launches.
pub open spec fn run_launched(actions: Seq<RunAction>) -> Seq<i64>
    decreases actions.len(),
{
    if actions.len() == 0 {
        Seq::empty()
    } else {
        match actions.last() {
            RunAction::Launch(number) => run_launched(actions.drop_last()).push(number),
            _ => run_launched(actions.drop_last()),
        }
    }
}

/// One run of the backfill.
#[derive(Debug)]
pub struct Backfill {
    width: u32,
    ceiling: usize,
    phase: Phase,
    scheduler: Scheduler,
}

impl View for Backfill {
    type V = BackfillState;

    closed spec fn view(&self) -> BackfillState {
        BackfillState {
            width: self.width,
            ceiling: self.ceiling as nat,
            phase: self.phase,
            scheduler: self.scheduler@,
        }
    }
}

impl Backfill {
    /// The run is in a state that a run can reach.
    #[verifier::type_invariant]
    spec fn valid(&self) -> bool {
        self@.inv()
    }

    /// A run over the `width` blocks below the height, with at most
    /// `ceiling` jobs in flight while more are launched.
    pub fn new(width: u32, ceiling: usize) -> (run: Self)
        ensures
            run@ == BackfillState::init(width, ceiling as nat),
    {
        Backfill {
            width,
            ceiling,
            phase: Phase::AwaitingHeight,
            scheduler: Scheduler::new(WorkQueue::empty(), ceiling),
        }
    }

    /// Takes `event` in and says what to do next.
    pub fn step(&mut self, event: RunEvent) -> (action: RunAction)
        ensures
            old(self)@.inv(),
            final(self)@.inv(),
            final(self)@ == old(self)@.step(event).0,
            action == old(self)@.step(event).1,
    {
        proof {
            use_type_invariant(&*self);
        }
        match self.phase {
            Phase::AwaitingHeight => match event {
                RunEvent::Height(reply) => match latest_height(&reply) {
                    Ok(latest) => {
                        let mut scheduler = Scheduler::new(
                            WorkQueue::below(latest, self.width),
                            self.ceiling,
                        );
                        let action = scheduler.step(Event::Poll);
                        *self = Backfill {
                            width: self.width,
                            ceiling: self.ceiling,
                            phase: Phase::Running { latest },
                            scheduler,
                        };
                        lift(action)
                    },
                    Err(error) => {
                        self.phase = Phase::Failed(error);
                        RunAction::Abort(Fatal::Height(error))
                    },
                },
                _ => RunAction::ResolveHeight,
            },
            Phase::Running { latest: _ } => {
                let told = match event {
                    RunEvent::JobFinished(outcome) => Event::JobFinished(outcome),
                    _ => Event::Poll,
                };
                let action = self.scheduler.step(told);
                lift(action)
            },
            Phase::Failed(error) => RunAction::Abort(Fatal::Height(error)),
        }
    }

    /// Where the run stands.
    pub fn phase(&self) -> (phase: Phase)
        ensures
            phase == self@.phase,
    {
        self.phase
    }

    /// How many blocks below the height the run fetches.
    pub fn width(&self) -> (width: u32)
        ensures
            width == self@.width,
    {
        self.width
    }

    /// The concurrency ceiling.
    pub fn ceiling(&self) -> (ceiling: usize)
        ensures
            ceiling == self@.ceiling,
    {
        self.ceiling
    }

    /// The scheduler of the run; its queue is empty until the height is
    /// known.
    pub fn scheduler(&self) -> (scheduler: &Scheduler)
        ensures
            scheduler@ == self@.scheduler,
    {
        &self.scheduler
    }
}

impl Fatal {
    /// The words with which a run that cannot go on gives up.
    pub fn message(&self) -> (text: &'static str)
        ensures
            text@ == (match *self {
                Fatal::Height(error) => error.message_spec(),
                Fatal::JobFailed => "Failed to join"@,
            }),
    {
        match self {
            Fatal::Height(error) => error.message(),
            Fatal::JobFailed => "Failed to join",
        }
    }
}

fn lift(action: Action) -> (lifted: RunAction)
    ensures
        lifted == run_action(action),
{
    match action {
        Action::Launch(number) => RunAction::Launch(number),
        Action::Wait => RunAction::Wait,
        Action::Done => RunAction::Done,
        Action::Abort => RunAction::Abort(Fatal::JobFailed),
    }
}

/// What every run keeps true from its start: the invariant; that nothing is
/// launched before the height is known or after the run could not start;
/// and that, once the height is `latest`, the launches so far are the
/// blocks from `latest - 1` downward, one each, while the rest of the range
/// still waits and every launched job is in flight or finished.
pub proof fn law_run_accounts(width: u32, ceiling: nat, events: Seq<RunEvent>)
    ensures
        ({
            let start = BackfillState::init(width, ceiling);
            let end = start.after(events);
            let jobs = run_launched(start.trace(events));
            &&& end.inv()
            &&& end.width == width
            &&& end.ceiling == ceiling
            &&& start.trace(events).len() == events.len()
            &&& match end.phase {
                Phase::Running { latest } => {
                    &&& jobs.len() + end.scheduler.pending.len() == width
                    &&& end.scheduler.pending == block_span(latest, width as nat).take(
                        end.scheduler.pending.len() as int,
                    )
                    &&& end.scheduler.in_flight + end.scheduler.finished == jobs.len()
                    &&& forall|i: int| 0 <= i < jobs.len() ==> jobs[i] == latest - 1 - i
                },
                _ => jobs.len() == 0,
            }
        }),
    decreases events.len(),
{
    let start = BackfillState::init(width, ceiling);
    if events.len() > 0 {
        let earlier = events.drop_last();
        law_run_accounts(width, ceiling, earlier);
        if let RunEvent::Height(reply) = events.last() {
            law_height_not_negative(reply);
        }
        let action = start.after(earlier).step(events.last()).1;
        assert(start.trace(earlier).push(action).drop_last() =~= start.trace(earlier));
    }
}

/// While no reply to the height request has come, the run has not moved:
/// every answer so far was to make that request.
proof fn lemma_still_awaiting(width: u32, ceiling: nat, events: Seq<RunEvent>)
    requires
        forall|j: int| 0 <= j < events.len() ==> !(events[j] is Height),
    ensures
        BackfillState::init(width, ceiling).after(events) == BackfillState::init(width, ceiling),
    decreases events.len(),
{
    if events.len() > 0 {
        lemma_still_awaiting(width, ceiling, events.drop_last());
    }
}

/// If the first reply to the height request gives no height, be it that the
/// call failed, that the reply does not decode or that its result is not a
/// quantity, the run aborts at that event with that reason, answers every
/// later event with the same, and launches no job at all.
pub proof fn law_failed_height_launches_nothing(
    width: u32,
    ceiling: nat,
    events: Seq<RunEvent>,
    at: int,
)
    requires
        0 <= at < events.len(),
        events[at] is Height,
        height_of(events[at]->Height_0) is Err,
        forall|j: int| 0 <= j < at ==> !(events[j] is Height),
    ensures
        ({
            let start = BackfillState::init(width, ceiling);
            let error = height_of(events[at]->Height_0)->Err_0;
            &&& start.after(events).phase == Phase::Failed(error)
            &&& forall|k: int|
                at <= k < events.len() ==> start.trace(events)[k] == RunAction::Abort(
                    Fatal::Height(error),
                )
            &&& run_launched(start.trace(events)).len() == 0
        }),
    decreases events.len(),
{
    let start = BackfillState::init(width, ceiling);
    let earlier = events.drop_last();
    law_run_accounts(width, ceiling, events);
    law_run_accounts(width, ceiling, earlier);
    if at == events.len() - 1 {
        lemma_still_awaiting(width, ceiling, earlier);
    } else {
        law_failed_height_launches_nothing(width, ceiling, earlier, at);
    }
}

/// A run that reaches `Done` has learnt a height `latest` and launched a job
/// for every block from `latest - width` up to `latest - 1`, for each of
/// them exactly once and for no other block, in descending order; and every
/// one of these jobs has finished.
pub proof fn law_done_run_fetched_range(width: u32, ceiling: nat, events: Seq<RunEvent>)
    requires
        events.len() > 0,
        BackfillState::init(width, ceiling).trace(events).last() == RunAction::Done,
    ensures
        ({
            let start = BackfillState::init(width, ceiling);
            let end = start.after(events);
            let jobs = run_launched(start.trace(events));
            &&& end.phase is Running
            &&& jobs.len() == width
            &&& end.scheduler.finished == width
            &&& forall|i: int| 0 <= i < width ==> jobs[i] == end.phase->latest - 1 - i
            &&& jobs.no_duplicates()
            &&& forall|block: i64|
                end.phase->latest - width <= block < end.phase->latest <==> jobs.contains(block)
        }),
{
    let start = BackfillState::init(width, ceiling);
    law_run_accounts(width, ceiling, events);
    law_run_accounts(width, ceiling, events.drop_last());
    let end = start.after(events);
    let jobs = run_launched(start.trace(events));
    let latest = end.phase->latest;
    assert forall|block: i64| latest - width <= block < latest implies jobs.contains(block) by {
        assert(jobs[latest - 1 - block] == block);
    }
}

/// At every point of a run the jobs in flight exceed the ceiling by one at
/// most, and where the ceiling is no less than the width of the range they
/// never exceed it.
pub proof fn law_run_window(width: u32, ceiling: nat, events: Seq<RunEvent>)
    ensures
        ({
            let end = BackfillState::init(width, ceiling).after(events);
            &&& end.scheduler.in_flight <= ceiling + 1
            &&& width <= ceiling ==> end.scheduler.in_flight <= ceiling
        }),
{
    law_run_accounts(width, ceiling, events);
}

/// A run tells the caller to wait only while a job is in flight, so that a
/// wait always ends with a finished job to report.
pub proof fn law_run_waits_only_for_jobs(state: BackfillState, event: RunEvent)
    ensures
        state.step(event).1 == RunAction::Wait ==> state.step(event).0.scheduler.in_flight > 0,
{
}

/// A run aborts for a failed job only if a job was reported as failed:
/// calls that fail inside a job are not reported to the run at all, and a
/// job that went through them has finished like any other.
pub proof fn law_only_a_failed_job_aborts_a_run(width: u32, ceiling: nat, events: Seq<RunEvent>)
    requires
        forall|i: int|
            0 <= i < events.len() ==> events[i] != RunEvent::JobFinished(JoinOutcome::Failed),
    ensures
        ({
            let start = BackfillState::init(width, ceiling);
            &&& !start.after(events).scheduler.aborted
            &&& forall|k: int|
                0 <= k < events.len() ==> start.trace(events)[k] != RunAction::Abort(
                    Fatal::JobFailed,
                )
        }),
    decreases events.len(),
{
    let start = BackfillState::init(width, ceiling);
    if events.len() > 0 {
        let earlier = events.drop_last();
        law_only_a_failed_job_aborts_a_run(width, ceiling, earlier);
        law_run_accounts(width, ceiling, earlier);
    }
}

/// Whether `event` is what a caller reports that has done what `action`
/// told it: the reply after the height request, nothing new after a launch,
/// a finished job after a wait.
pub open spec fn answers(action: RunAction, event: RunEvent) -> bool {
    match action {
        RunAction::ResolveHeight => event is Height,
        RunAction::Launch(_) => event is Poll,
        RunAction::Wait => event is JobFinished,
        RunAction::Done => true,
        RunAction::Abort(_) => true,
    }
}

/// Whether `events` are the reports of a caller that opens with a poll and
/// from then on answers each action of the run.
pub open spec fn obedient(width: u32, ceiling: nat, events: Seq<RunEvent>) -> bool {
    &&& events.len() > 0 ==> events[0] is Poll
    &&& forall|j: int|
        0 <= j < events.len() - 1 ==> answers(
            #[trigger] BackfillState::init(width, ceiling).trace(events)[j],
            events[j + 1],
        )
}

/// Whether `action` ends a run.
pub open spec fn is_final(action: RunAction) -> bool {
    action is Done || action is Abort
}

/// What is left to do in a running state, counted in steps: two for each
/// block that waits, one for each job in flight, and one more while the
/// last action was a launch.
spec fn work_left(state: BackfillState, last: RunAction) -> int {
    2 * state.scheduler.pending.len() + state.scheduler.in_flight + if last is Launch {
        1int
    } else {
        0int
    }
}

proof fn lemma_obedient_run(width: u32, ceiling: nat, events: Seq<RunEvent>)
    requires
        obedient(width, ceiling, events),
        forall|k: int|
            0 <= k < events.len() ==> !is_final(
                #[trigger] BackfillState::init(width, ceiling).trace(events)[k],
            ),
    ensures
        ({
            let start = BackfillState::init(width, ceiling);
            let end = start.after(events);
            &&& start.trace(events).len() == events.len()
            &&& events.len() <= 1 ==> end.phase is AwaitingHeight
            &&& events.len() >= 2 ==> {
                &&& end.phase is Running
                &&& !end.scheduler.aborted
                &&& events.len() + work_left(end, start.trace(events).last()) <= 2 * width + 2
                &&& work_left(end, start.trace(events).last()) >= 1
            }
        }),
    decreases events.len(),
{
    let start = BackfillState::init(width, ceiling);
    law_run_accounts(width, ceiling, events);
    if events.len() > 0 {
        let earlier = events.drop_last();
        law_run_accounts(width, ceiling, earlier);
        // What the run did on `earlier` is the front of what it did on
        // `events`: there too the caller answered and the run had not ended.
        assert forall|k: int| 0 <= k < earlier.len() implies start.trace(earlier)[k]
            == start.trace(events)[k] by {}
        assert(obedient(width, ceiling, earlier));
        lemma_obedient_run(width, ceiling, earlier);
        // The last event answers the action before it, so it takes the run
        // a step further.
        if earlier.len() >= 1 {
            assert(answers(start.trace(events)[earlier.len() - 1], events[earlier.len() as int]));
        }
    }
}

/// A run comes to its end: a caller that opens with a poll and answers each
/// action has, after `2 * width + 2` events at the latest, been told that
/// the run is done or aborted.
pub proof fn law_obedient_run_ends(width: u32, ceiling: nat, events: Seq<RunEvent>)
    requires
        obedient(width, ceiling, events),
        events.len() >= 2 * width + 2,
    ensures
        exists|k: int|
            0 <= k < events.len() && is_final(
                #[trigger] BackfillState::init(width, ceiling).trace(events)[k],
            ),
{
    let start = BackfillState::init(width, ceiling);
    if forall|k: int| 0 <= k < events.len() ==> !is_final(#[trigger] start.trace(events)[k]) {
        lemma_obedient_run(width, ceiling, events);
    }
}

/// Whether `events` open with a poll and then a reply to the height request
/// that gives a height.
pub open spec fn starts_well(events: Seq<RunEvent>) -> bool {
    &&& events.len() >= 2
    &&& events[0] is Poll
    &&& events[1] is Height
    &&& height_of(events[1]->Height_0) is Ok
}

/// Once a run has started well it is running, and every action from the
/// second on is the scheduler's.
proof fn lemma_started_run_stays_running(width: u32, ceiling: nat, events: Seq<RunEvent>)
    requires
        starts_well(events),
    ensures
        ({
            let start = BackfillState::init(width, ceiling);
            &&& start.after(events).phase is Running
            &&& forall|k: int|
                0 <= k < events.len() && (#[trigger] start.trace(events)[k]) is Abort
                    ==> start.trace(events)[k] == RunAction::Abort(Fatal::JobFailed)
        }),
    decreases events.len(),
{
    let start = BackfillState::init(width, ceiling);
    let earlier = events.drop_last();
    law_run_accounts(width, ceiling, events);
    law_run_accounts(width, ceiling, earlier);
    if events.len() > 2 {
        lemma_started_run_stays_running(width, ceiling, earlier);
        assert forall|k: int| 0 <= k < earlier.len() implies start.trace(earlier)[k]
            == start.trace(events)[k] by {}
    }
}

/// A run that is not disturbed comes to a good end: if the reply to the
/// height request gives a height, no job is reported as failed, and the
/// caller answers each action, then after
/// `2 * width + 2` events at the latest the run has said that it is done.
/// Calls that fail inside the jobs change nothing of this.
pub proof fn law_undisturbed_run_is_done(width: u32, ceiling: nat, events: Seq<RunEvent>)
    requires
        obedient(width, ceiling, events),
        starts_well(events),
        forall|i: int|
            0 <= i < events.len() ==> events[i] != RunEvent::JobFinished(JoinOutcome::Failed),
        events.len() >= 2 * width + 2,
    ensures
        exists|k: int|
            0 <= k < events.len() && #[trigger] BackfillState::init(width, ceiling).trace(
                events,
            )[k] == RunAction::Done,
{
    let start = BackfillState::init(width, ceiling);
    law_obedient_run_ends(width, ceiling, events);
    law_only_a_failed_job_aborts_a_run(width, ceiling, events);
    lemma_started_run_stays_running(width, ceiling, events);
    let k = choose|k: int| 0 <= k < events.len() && is_final(#[trigger] start.trace(events)[k]);
    assert(start.trace(events)[k] == RunAction::Done);
}

} // verus!
