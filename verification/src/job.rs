//! The block job: for one block, the request for the block and then the
//! request for its receipts, one after the other.

use crate::rpc::{
    block_request, block_request_spec, receipts_request, receipts_request_spec, JsonRpcRequest,
    RequestView,
};
use vstd::prelude::*;

verus! {

/// What the caller reports to a job.
#[derive(Clone, Copy, Debug, PartialEq, Eq, Structural)]
pub enum JobEvent {
    /// The job has been launched.
    Begin,
    /// The call that the job asked for is over; `delivered` says whether it
    /// brought a body.
    CallReturned { delivered: bool },
}

/// What the job tells the caller to do.
#[derive(Clone, Debug, PartialEq, Eq)]
pub enum JobAction {
    /// Make this call and report when it is over.
    Call(JsonRpcRequest),
    /// Both calls were made: the job has come to its end.
    Finish,
}

/// An action of a job as a mathematical value.
pub enum JobActionView {
    Call(RequestView),
    Finish,
}

impl View for JobAction {
    type V = JobActionView;

    open spec fn view(&self) -> JobActionView {
        match self {
            JobAction::Call(request) => JobActionView::Call(request@),
            JobAction::Finish => JobActionView::Finish,
        }
    }
}

/// A job as a mathematical value.
pub struct JobState {
    /// The block that the job fetches.
    pub block_number: i64,
    /// How many of its two calls the job has asked for.
    pub calls_made: nat,
}

impl JobState {
    /// The job for `block_number` before its first step.
    pub open spec fn init(block_number: i64) -> Self {
        JobState { block_number, calls_made: 0 }
    }

    /// One step of the job. The event is not looked at: the receipts are
    /// asked for whether or not the block arrived, and the job ends after
    /// the second call whatever that brought.
    pub open spec fn step(self, event: JobEvent) -> (Self, JobActionView) {
        if self.calls_made == 0 {
            (
                JobState { calls_made: 1, ..self },
                JobActionView::Call(block_request_spec(self.block_number)),
            )
        } else if self.calls_made == 1 {
            (
                JobState { calls_made: 2, ..self },
                JobActionView::Call(receipts_request_spec(self.block_number)),
            )
        } else {
            (self, JobActionView::Finish)
        }
    }
}

/// The job that fetches one block and its receipts.
#[derive(Clone, Debug)]
pub struct BlockJob {
    block_number: i64,
    calls_made: u8,
}

impl View for BlockJob {
    type V = JobState;

    closed spec fn view(&self) -> JobState {
        JobState { block_number: self.block_number, calls_made: self.calls_made as nat }
    }
}

impl BlockJob {
    /// The job for `block_number`, with both calls still to make.
    pub fn new(block_number: i64) -> (job: Self)
        ensures
            job@ == JobState::init(block_number),
    {
        BlockJob { block_number, calls_made: 0 }
    }

    /// The block that the job fetches.
    pub fn block_number(&self) -> (number: i64)
        ensures
            number == self@.block_number,
    {
        self.block_number
    }

    /// Takes `event` in and says what to do next: first the call for the
    /// block, then the call for its receipts, then nothing more.
    pub fn step(&mut self, event: JobEvent) -> (action: JobAction)
        ensures
            final(self)@ == old(self)@.step(event).0,
            action@ == old(self)@.step(event).1,
    {
        if self.calls_made == 0 {
            self.calls_made = 1;
            JobAction::Call(block_request(self.block_number))
        } else if self.calls_made == 1 {
            self.calls_made = 2;
            JobAction::Call(receipts_request(self.block_number))
        } else {
            JobAction::Finish
        }
    }
}

/// A job makes the call for the block, then the call for the receipts, then
/// ends, whatever is reported to it: a call that failed neither stops the
/// job nor is made again.
pub proof fn law_job_makes_both_calls(
    block_number: i64,
    first: JobEvent,
    second: JobEvent,
    third: JobEvent,
)
    ensures
        ({
            let job = JobState::init(block_number);
            let (job1, action1) = job.step(first);
            let (job2, action2) = job1.step(second);
            let (job3, action3) = job2.step(third);
            &&& action1 == JobActionView::Call(block_request_spec(block_number))
            &&& action2 == JobActionView::Call(receipts_request_spec(block_number))
            &&& action3 == JobActionView::Finish
        }),
{
}

} // verus!
