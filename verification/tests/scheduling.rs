use backfill::queue::WorkQueue;
use backfill::scheduler::{Action, Event, JoinOutcome, Scheduler};

struct Report {
    launched: Vec<i64>,
    peak: usize,
    waits_before_last_launch: usize,
    steps: usize,
    last: Action,
    finished: usize,
}

/// Drives a scheduler as a caller does that waits only when it is told to,
/// and then sees one job finish. `fail_at` makes the wait with that number,
/// counted from zero, end in a failed job.
fn drive(latest: i64, width: u32, ceiling: usize, fail_at: Option<usize>) -> Report {
    let mut scheduler = Scheduler::new(WorkQueue::below(latest, width), ceiling);
    let mut report = Report {
        launched: Vec::new(),
        peak: 0,
        waits_before_last_launch: 0,
        steps: 0,
        last: Action::Wait,
        finished: 0,
    };
    let mut waits = 0;
    let mut event = Event::Poll;
    loop {
        let before = scheduler.in_flight();
        let action = scheduler.step(event);
        report.steps += 1;
        report.peak = report.peak.max(scheduler.in_flight());
        assert_eq!(
            scheduler.pending() + scheduler.in_flight() + scheduler.finished(),
            scheduler.total()
        );
        assert_eq!(scheduler.total(), width as usize);
        assert_eq!(scheduler.ceiling(), ceiling);
        report.last = action;
        match action {
            Action::Launch(number) => {
                let freed = if event == Event::Poll { 0 } else { 1 };
                assert!(before - freed <= ceiling);
                report.launched.push(number);
                report.waits_before_last_launch = waits;
                event = Event::Poll;
            }
            Action::Wait => {
                assert!(scheduler.in_flight() > 0);
                let outcome = if fail_at == Some(waits) {
                    JoinOutcome::Failed
                } else {
                    JoinOutcome::Completed
                };
                waits += 1;
                event = Event::JobFinished(outcome);
            }
            Action::Done | Action::Abort => {
                report.finished = scheduler.finished();
                return report;
            }
        }
        assert!(report.steps <= 2 * width as usize + 2);
    }
}

fn descending(latest: i64, width: u32) -> Vec<i64> {
    (latest - width as i64..latest).rev().collect()
}

#[test]
fn the_queue_below_a_height_holds_the_range_in_order() {
    let mut queue = WorkQueue::below(50000, 44000);
    assert_eq!(queue.len(), 44000);
    assert!(!queue.is_empty());
    assert_eq!(queue.pop(), Some(49999));
    assert_eq!(queue.pop(), Some(49998));
    assert_eq!(queue.len(), 43998);
    let mut last = 49998;
    while let Some(number) = queue.pop() {
        assert_eq!(number, last - 1);
        last = number;
    }
    assert_eq!(last, 6000);
    assert!(queue.is_empty());
    assert_eq!(queue.pop(), None);
    assert_eq!(queue.len(), 0);
}

#[test]
fn the_queue_may_reach_below_zero() {
    let mut queue = WorkQueue::below(2, 4);
    assert_eq!(queue.pop(), Some(1));
    assert_eq!(queue.pop(), Some(0));
    assert_eq!(queue.pop(), Some(-1));
    assert_eq!(queue.pop(), Some(-2));
    assert_eq!(queue.pop(), None);
}

#[test]
fn the_queue_reaches_down_to_the_lowest_number() {
    let mut queue = WorkQueue::below(i64::MIN + 2, 2);
    assert_eq!(queue.pop(), Some(i64::MIN + 1));
    assert_eq!(queue.pop(), Some(i64::MIN));
    assert_eq!(queue.pop(), None);
}

#[test]
fn an_empty_queue_gives_nothing() {
    let mut queue = WorkQueue::empty();
    assert!(queue.is_empty());
    assert_eq!(queue.len(), 0);
    assert_eq!(queue.pop(), None);
    let mut none_below = WorkQueue::below(100, 0);
    assert!(none_below.is_empty());
    assert_eq!(none_below.pop(), None);
}

#[test]
fn a_new_scheduler_has_nothing_in_flight() {
    let scheduler = Scheduler::new(WorkQueue::below(10, 4), 3);
    assert_eq!(scheduler.pending(), 4);
    assert_eq!(scheduler.in_flight(), 0);
    assert_eq!(scheduler.finished(), 0);
    assert_eq!(scheduler.total(), 4);
    assert_eq!(scheduler.ceiling(), 3);
    assert!(!scheduler.is_aborted());
}

#[test]
fn every_block_is_launched_once_for_every_size_and_ceiling() {
    for width in 0..=12u32 {
        for ceiling in 0..=14usize {
            let report = drive(1000, width, ceiling, None);
            assert_eq!(report.last, Action::Done);
            assert_eq!(report.launched, descending(1000, width));
            assert_eq!(report.finished, width as usize);
        }
    }
}

#[test]
fn the_jobs_in_flight_exceed_the_ceiling_by_one_at_most() {
    for width in 0..=12u32 {
        for ceiling in 0..=14usize {
            let report = drive(1000, width, ceiling, None);
            assert!(report.peak <= ceiling + 1);
            assert_eq!(report.peak, (width as usize).min(ceiling + 1));
        }
    }
}

#[test]
fn a_ceiling_that_covers_the_range_is_never_exceeded() {
    for width in 0..=12u32 {
        for ceiling in width as usize..=14 {
            let report = drive(1000, width, ceiling, None);
            assert!(report.peak <= ceiling);
        }
    }
}

#[test]
fn the_launches_descend_strictly() {
    let report = drive(50000, 300, 10, None);
    assert_eq!(report.launched.len(), 300);
    assert_eq!(report.launched[0], 49999);
    assert_eq!(report.launched[299], 49700);
    for pair in report.launched.windows(2) {
        assert!(pair[0] > pair[1]);
        assert_eq!(pair[0] - 1, pair[1]);
    }
}

#[test]
fn a_ceiling_no_less_than_the_range_launches_all_before_any_wait() {
    for (width, ceiling) in [(5u32, 5usize), (5, 6), (5, 100), (1, 1), (8, usize::MAX)] {
        let report = drive(77, width, ceiling, None);
        assert_eq!(report.waits_before_last_launch, 0);
        assert_eq!(report.launched, descending(77, width));
        assert_eq!(report.last, Action::Done);
        assert_eq!(report.finished, width as usize);
        assert_eq!(report.peak, width as usize);
    }
}

#[test]
fn a_ceiling_of_zero_runs_one_job_at_a_time() {
    let report = drive(10, 4, 0, None);
    assert_eq!(report.launched, vec![9, 8, 7, 6]);
    assert_eq!(report.peak, 1);
    assert_eq!(report.last, Action::Done);
}

#[test]
fn the_window_slides_as_jobs_finish() {
    let mut scheduler = Scheduler::new(WorkQueue::below(10, 5), 2);
    assert_eq!(scheduler.step(Event::Poll), Action::Launch(9));
    assert_eq!(scheduler.step(Event::Poll), Action::Launch(8));
    assert_eq!(scheduler.in_flight(), 2);
    assert_eq!(scheduler.step(Event::Poll), Action::Launch(7));
    assert_eq!(scheduler.in_flight(), 3);
    assert_eq!(scheduler.step(Event::Poll), Action::Wait);
    assert_eq!(scheduler.step(Event::Poll), Action::Wait);
    assert_eq!(scheduler.step(Event::JobFinished(JoinOutcome::Completed)), Action::Launch(6));
    assert_eq!(scheduler.in_flight(), 3);
    assert_eq!(scheduler.finished(), 1);
    assert_eq!(scheduler.step(Event::Poll), Action::Wait);
    assert_eq!(scheduler.step(Event::JobFinished(JoinOutcome::Completed)), Action::Launch(5));
    assert_eq!(scheduler.pending(), 0);
    assert_eq!(scheduler.step(Event::Poll), Action::Wait);
    assert_eq!(scheduler.step(Event::JobFinished(JoinOutcome::Completed)), Action::Wait);
    assert_eq!(scheduler.step(Event::JobFinished(JoinOutcome::Completed)), Action::Wait);
    assert_eq!(scheduler.in_flight(), 1);
    assert_eq!(scheduler.step(Event::JobFinished(JoinOutcome::Completed)), Action::Done);
    assert_eq!(scheduler.in_flight(), 0);
    assert_eq!(scheduler.finished(), 5);
    assert_eq!(scheduler.step(Event::Poll), Action::Done);
}

#[test]
fn jobs_that_finish_early_make_room() {
    let mut scheduler = Scheduler::new(WorkQueue::below(10, 4), 1);
    assert_eq!(scheduler.step(Event::Poll), Action::Launch(9));
    assert_eq!(scheduler.step(Event::JobFinished(JoinOutcome::Completed)), Action::Launch(8));
    assert_eq!(scheduler.in_flight(), 1);
    assert_eq!(scheduler.step(Event::JobFinished(JoinOutcome::Completed)), Action::Launch(7));
    assert_eq!(scheduler.step(Event::Poll), Action::Launch(6));
    assert_eq!(scheduler.in_flight(), 2);
    assert_eq!(scheduler.step(Event::Poll), Action::Wait);
    assert_eq!(scheduler.step(Event::JobFinished(JoinOutcome::Completed)), Action::Wait);
    assert_eq!(scheduler.step(Event::JobFinished(JoinOutcome::Completed)), Action::Done);
    assert_eq!(scheduler.finished(), 4);
}

#[test]
fn a_report_with_nothing_in_flight_is_dropped() {
    let mut scheduler = Scheduler::new(WorkQueue::below(10, 2), 5);
    assert_eq!(scheduler.step(Event::JobFinished(JoinOutcome::Failed)), Action::Launch(9));
    assert!(!scheduler.is_aborted());
    assert_eq!(scheduler.finished(), 0);
    assert_eq!(scheduler.in_flight(), 1);
}

#[test]
fn a_failed_job_ends_the_run_for_good() {
    let mut scheduler = Scheduler::new(WorkQueue::below(10, 6), 1);
    assert_eq!(scheduler.step(Event::Poll), Action::Launch(9));
    assert_eq!(scheduler.step(Event::Poll), Action::Launch(8));
    assert_eq!(scheduler.step(Event::Poll), Action::Wait);
    assert_eq!(scheduler.step(Event::JobFinished(JoinOutcome::Failed)), Action::Abort);
    assert!(scheduler.is_aborted());
    assert_eq!(scheduler.pending(), 4);
    assert_eq!(scheduler.in_flight(), 1);
    assert_eq!(scheduler.finished(), 1);
    assert_eq!(scheduler.step(Event::Poll), Action::Abort);
    assert_eq!(scheduler.step(Event::JobFinished(JoinOutcome::Completed)), Action::Abort);
    assert_eq!(scheduler.step(Event::Poll), Action::Abort);
    assert_eq!(scheduler.pending(), 4);
    assert_eq!(scheduler.in_flight(), 0);
}

#[test]
fn a_failure_at_any_wait_stops_the_launches_there() {
    for fail_at in 0..8usize {
        let report = drive(100, 8, 2, Some(fail_at));
        assert_eq!(report.last, Action::Abort);
        let launched = (3 + fail_at as u32).min(8);
        assert_eq!(report.launched, descending(100, launched));
    }
}

#[test]
fn an_empty_range_is_done_at_once() {
    let report = drive(5, 0, 10, None);
    assert_eq!(report.last, Action::Done);
    assert_eq!(report.steps, 1);
    assert!(report.launched.is_empty());
    assert_eq!(report.peak, 0);
}

#[test]
fn a_run_takes_two_steps_for_each_block_at_most() {
    for width in 1..=12u32 {
        for ceiling in 0..=14usize {
            let report = drive(1000, width, ceiling, None);
            assert!(report.steps <= 2 * width as usize + 1);
        }
    }
}
