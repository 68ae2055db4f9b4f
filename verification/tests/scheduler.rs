use psh::runtime::{ExecutionOutcome, Task, TaskResult};
use psh::scheduler::{Job, Report, Scheduler, Upload};

fn task(id: &str) -> Task {
    Task {
        id: Some(id.to_string()),
        wasm_component: vec![0, 97, 115, 109],
        wasm_component_args: vec![id.to_string()],
        end_time: 1_000,
    }
}

fn take(scheduler: &mut Scheduler) -> Option<Report> {
    if !scheduler.report_sent() {
        return None;
    }
    scheduler.delivered()
}

#[test]
fn limit_is_at_least_one() {
    assert_eq!(Scheduler::new(0).limit(), 1);
    assert_eq!(Scheduler::new(1).limit(), 1);
    assert_eq!(Scheduler::new(8).limit(), 8);
}

#[test]
fn task_starts_at_once_while_a_place_is_free() {
    let mut scheduler = Scheduler::new(2);
    assert_eq!(scheduler.accept(task("a")), Ok(Some(Job { ticket: 0, task: task("a") })));
    assert_eq!(scheduler.accept(task("b")), Ok(Some(Job { ticket: 1, task: task("b") })));
    assert_eq!(scheduler.running(), 2);
    assert_eq!(scheduler.waiting(), 0);
    assert_eq!(scheduler.unreported(), 0);
    assert!(scheduler.is_running(0));
    assert!(scheduler.is_running(1));
    assert!(!scheduler.is_running(2));
}

#[test]
fn task_beyond_the_bound_waits_and_is_not_dropped() {
    let mut scheduler = Scheduler::new(1);
    assert_eq!(scheduler.accept(task("a")), Ok(Some(Job { ticket: 0, task: task("a") })));
    assert_eq!(scheduler.accept(task("b")), Ok(None));
    assert_eq!(scheduler.accept(task("c")), Ok(None));
    assert_eq!(scheduler.running(), 1);
    assert_eq!(scheduler.waiting(), 2);

    let next = scheduler.finish(0, ExecutionOutcome::NormalExit(0));
    assert_eq!(next, Some(Job { ticket: 1, task: task("b") }));
    assert_eq!(
        scheduler.next_report(),
        Some(&Report {
            ticket: 0,
            task_id: Some("a".to_string()),
            result: TaskResult::Completed(0),
        })
    );
    assert_eq!(scheduler.running(), 1);
    assert_eq!(scheduler.waiting(), 1);
    assert_eq!(scheduler.unreported(), 1);

    let next = scheduler.finish(1, ExecutionOutcome::TimedOut);
    assert_eq!(next, Some(Job { ticket: 2, task: task("c") }));
    let next = scheduler.finish(2, ExecutionOutcome::NormalExit(1));
    assert_eq!(next, None);
    assert_eq!(scheduler.running(), 0);
    assert_eq!(scheduler.waiting(), 0);
    assert_eq!(scheduler.unreported(), 3);

    assert_eq!(take(&mut scheduler).unwrap().task_id.as_deref(), Some("a"));
    assert_eq!(
        take(&mut scheduler),
        Some(Report {
            ticket: 1,
            task_id: Some("b".to_string()),
            result: TaskResult::Failed("timed out".to_string()),
        })
    );
    assert_eq!(
        take(&mut scheduler),
        Some(Report { ticket: 2, task_id: Some("c".to_string()), result: TaskResult::Completed(1) })
    );
    assert_eq!(take(&mut scheduler), None);
    assert_eq!(scheduler.unreported(), 0);
}

#[test]
fn report_stays_the_next_until_it_is_taken() {
    let mut scheduler = Scheduler::new(1);
    scheduler.accept(task("a")).unwrap();
    assert_eq!(scheduler.next_report(), None);
    scheduler.finish(0, ExecutionOutcome::NormalExit(0));
    let first = scheduler.next_report().cloned();
    assert_eq!(first.as_ref().map(|r| r.ticket), Some(0));
    assert_eq!(scheduler.next_report().cloned(), first);
    assert_eq!(scheduler.next_report().cloned(), first);
    assert_eq!(take(&mut scheduler), first);
    assert_eq!(scheduler.next_report(), None);
    assert_eq!(take(&mut scheduler), None);
}

#[test]
fn task_is_reported_once_however_often_its_end_is_told() {
    let mut scheduler = Scheduler::new(2);
    scheduler.accept(task("a")).unwrap();
    assert_eq!(scheduler.finish(0, ExecutionOutcome::NormalExit(0)), None);
    assert_eq!(scheduler.unreported(), 1);
    assert_eq!(scheduler.finish(0, ExecutionOutcome::NormalExit(0)), None);
    assert_eq!(scheduler.finish(0, ExecutionOutcome::Trap("again".to_string())), None);
    assert_eq!(scheduler.unreported(), 1);
    assert_eq!(take(&mut scheduler).map(|r| r.result), Some(TaskResult::Completed(0)));
    assert_eq!(scheduler.finish(0, ExecutionOutcome::TimedOut), None);
    assert_eq!(scheduler.unreported(), 0);
}

#[test]
fn end_of_a_task_that_never_ran_gives_nothing_to_do() {
    let mut scheduler = Scheduler::new(1);
    assert_eq!(scheduler.finish(5, ExecutionOutcome::NormalExit(0)), None);
    scheduler.accept(task("a")).unwrap();
    scheduler.accept(task("b")).unwrap();
    assert_eq!(scheduler.finish(1, ExecutionOutcome::NormalExit(0)), None);
    assert_eq!(scheduler.running(), 1);
    assert_eq!(scheduler.waiting(), 1);
    assert_eq!(scheduler.unreported(), 0);
}

#[test]
fn fault_of_one_task_leaves_the_next_to_run() {
    let mut scheduler = Scheduler::new(1);
    scheduler.accept(task("faulty")).unwrap();
    scheduler.accept(task("sound")).unwrap();
    let next =
        scheduler.finish(0, ExecutionOutcome::Trap("unreachable executed".to_string())).unwrap();
    assert_eq!(next.task, task("sound"));
    let report = take(&mut scheduler).unwrap();
    assert_eq!(report.task_id.as_deref(), Some("faulty"));
    match report.result {
        TaskResult::Failed(cause) => {
            assert!(!cause.is_empty());
            assert_eq!(cause, "trap: unreachable executed");
        }
        TaskResult::Completed(_) => panic!("a fault was reported as completed"),
    }
    assert_eq!(scheduler.finish(next.ticket, ExecutionOutcome::NormalExit(0)), None);
    assert_eq!(take(&mut scheduler).unwrap().result, TaskResult::Completed(0));
}

#[test]
fn every_task_taken_is_reported_exactly_once() {
    let mut scheduler = Scheduler::new(3);
    let mut to_run: Vec<u64> = Vec::new();
    let mut reported: Vec<u64> = Vec::new();
    let total: u64 = 20;
    let mut fetched: u64 = 0;
    while fetched < total {
        if let Some(job) = scheduler.accept(task(&format!("t{}", fetched))).unwrap() {
            to_run.push(job.ticket);
        }
        fetched += 1;
        assert!(scheduler.running() <= 3);
    }
    assert_eq!(scheduler.running(), 3);
    assert_eq!(scheduler.waiting(), 17);
    while let Some(ticket) = to_run.pop() {
        if let Some(job) = scheduler.finish(ticket, ExecutionOutcome::NormalExit(0)) {
            to_run.push(job.ticket);
        }
        assert!(scheduler.running() <= 3);
        if ticket % 2 == 0 {
            while let Some(report) = take(&mut scheduler) {
                assert_eq!(report.task_id, Some(format!("t{}", report.ticket)));
                reported.push(report.ticket);
            }
        }
    }
    while let Some(report) = take(&mut scheduler) {
        reported.push(report.ticket);
    }
    reported.sort();
    let expected: Vec<u64> = (0..total).collect();
    assert_eq!(reported, expected);
    assert_eq!(scheduler.running(), 0);
    assert_eq!(scheduler.waiting(), 0);
    assert_eq!(scheduler.unreported(), 0);
}

#[test]
fn task_without_a_name_is_reported_without_one() {
    let mut scheduler = Scheduler::new(1);
    let unnamed = Task {
        id: None,
        wasm_component: Vec::new(),
        wasm_component_args: Vec::new(),
        end_time: 0,
    };
    let job = scheduler.accept(unnamed).unwrap().unwrap();
    assert_eq!(scheduler.finish(job.ticket, ExecutionOutcome::NormalExit(0)), None);
    assert_eq!(take(&mut scheduler).unwrap().task_id, None);
}

#[test]
fn report_goes_upstream_in_two_sendings() {
    let mut scheduler = Scheduler::new(1);
    scheduler.accept(task("a")).unwrap();
    scheduler.accept(task("b")).unwrap();
    assert_eq!(scheduler.next_upload(), None);
    scheduler.finish(0, ExecutionOutcome::NormalExit(0));
    scheduler.finish(1, ExecutionOutcome::TimedOut);
    let first =
        Report { ticket: 0, task_id: Some("a".to_string()), result: TaskResult::Completed(0) };
    let second = Report {
        ticket: 1,
        task_id: Some("b".to_string()),
        result: TaskResult::Failed("timed out".to_string()),
    };
    assert_eq!(scheduler.next_upload(), Some((Upload::Result, &first)));
    assert!(scheduler.report_sent());
    assert_eq!(scheduler.next_upload(), Some((Upload::Done, &first)));
    assert_eq!(scheduler.unreported(), 2);
    assert_eq!(scheduler.delivered(), Some(first));
    assert_eq!(scheduler.next_upload(), Some((Upload::Result, &second)));
    assert!(scheduler.report_sent());
    assert_eq!(scheduler.next_upload(), Some((Upload::Done, &second)));
    assert_eq!(scheduler.delivered(), Some(second));
    assert_eq!(scheduler.next_upload(), None);
    assert!(!scheduler.report_sent());
    assert_eq!(scheduler.delivered(), None);
}

#[test]
fn sending_that_failed_stays_due_and_one_that_went_through_does_not() {
    let mut scheduler = Scheduler::new(1);
    scheduler.accept(task("a")).unwrap();
    scheduler.finish(0, ExecutionOutcome::NormalExit(3));
    let report =
        Report { ticket: 0, task_id: Some("a".to_string()), result: TaskResult::Completed(3) };
    let mut results_sent: u32 = 0;
    let mut marks_sent: u32 = 0;
    let goes_through = [false, false, true, false, false, false, true];
    for ok in goes_through {
        match scheduler.next_upload() {
            Some((Upload::Result, due)) => {
                assert_eq!(due, &report);
                if ok {
                    results_sent += 1;
                    assert!(scheduler.report_sent());
                }
            }
            Some((Upload::Done, due)) => {
                assert_eq!(due, &report);
                if ok {
                    marks_sent += 1;
                    assert_eq!(scheduler.delivered(), Some(report.clone()));
                }
            }
            None => panic!("nothing is due while a report is in the book"),
        }
    }
    assert_eq!(results_sent, 1);
    assert_eq!(marks_sent, 1);
    assert_eq!(scheduler.next_upload(), None);
    assert_eq!(scheduler.unreported(), 0);
}

#[test]
fn task_is_not_marked_done_before_its_report_was_taken() {
    let mut scheduler = Scheduler::new(1);
    scheduler.accept(task("a")).unwrap();
    scheduler.finish(0, ExecutionOutcome::NormalExit(0));
    assert_eq!(scheduler.delivered(), None);
    assert_eq!(scheduler.unreported(), 1);
    assert!(matches!(scheduler.next_upload(), Some((Upload::Result, _))));
    assert!(scheduler.report_sent());
    assert!(scheduler.report_sent());
    assert!(matches!(scheduler.next_upload(), Some((Upload::Done, _))));
    assert_eq!(scheduler.delivered().map(|r| r.ticket), Some(0));
    assert_eq!(scheduler.delivered(), None);
}

#[test]
fn report_that_ends_meanwhile_does_not_change_what_is_due() {
    let mut scheduler = Scheduler::new(2);
    scheduler.accept(task("a")).unwrap();
    scheduler.accept(task("b")).unwrap();
    scheduler.finish(1, ExecutionOutcome::NormalExit(0));
    assert!(scheduler.report_sent());
    scheduler.finish(0, ExecutionOutcome::NormalExit(0));
    assert_eq!(scheduler.next_upload().map(|(u, r)| (u, r.ticket)), Some((Upload::Done, 1)));
    assert_eq!(scheduler.delivered().map(|r| r.ticket), Some(1));
    assert_eq!(scheduler.next_upload().map(|(u, r)| (u, r.ticket)), Some((Upload::Result, 0)));
}
