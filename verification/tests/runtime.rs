use psh::runtime::{
    remaining_millis, report_of, step, ExecutionOutcome, SandboxEvent, SandboxState, Task,
    TaskResult,
};

fn run(events: Vec<SandboxEvent>) -> (SandboxState, Vec<ExecutionOutcome>) {
    let mut state = SandboxState::Loading;
    let mut outcomes = Vec::new();
    for event in events {
        let (next, outcome) = step(state, event);
        state = next;
        outcomes.extend(outcome);
    }
    (state, outcomes)
}

fn all_states() -> [SandboxState; 7] {
    [
        SandboxState::Loading,
        SandboxState::Instantiated,
        SandboxState::Running,
        SandboxState::Completed,
        SandboxState::Trapped,
        SandboxState::TimedOut,
        SandboxState::LoadFailed,
    ]
}

fn all_events() -> [SandboxEvent; 6] {
    [
        SandboxEvent::Linked,
        SandboxEvent::LoadFailed("bad magic".to_string()),
        SandboxEvent::Started,
        SandboxEvent::Returned(0),
        SandboxEvent::Trapped("out of bounds".to_string()),
        SandboxEvent::DeadlineElapsed,
    ]
}

#[test]
fn task_that_returns_is_completed() {
    let (state, outcomes) =
        run(vec![SandboxEvent::Linked, SandboxEvent::Started, SandboxEvent::Returned(3)]);
    assert_eq!(state, SandboxState::Completed);
    assert_eq!(outcomes, vec![ExecutionOutcome::NormalExit(3)]);
}

#[test]
fn task_that_outlives_its_deadline_times_out_once() {
    let (state, outcomes) = run(vec![
        SandboxEvent::Linked,
        SandboxEvent::Started,
        SandboxEvent::DeadlineElapsed,
        SandboxEvent::DeadlineElapsed,
        SandboxEvent::Returned(0),
        SandboxEvent::Trapped("late".to_string()),
    ]);
    assert_eq!(state, SandboxState::TimedOut);
    assert_eq!(outcomes, vec![ExecutionOutcome::TimedOut]);
    assert_eq!(report_of(ExecutionOutcome::TimedOut), TaskResult::Failed("timed out".to_string()));
}

#[test]
fn task_that_faults_is_trapped_with_a_cause() {
    let (state, outcomes) = run(vec![
        SandboxEvent::Linked,
        SandboxEvent::Started,
        SandboxEvent::Trapped("out of bounds memory access".to_string()),
    ]);
    assert_eq!(state, SandboxState::Trapped);
    assert_eq!(outcomes, vec![ExecutionOutcome::Trap("out of bounds memory access".to_string())]);
    assert_eq!(
        report_of(outcomes[0].clone()),
        TaskResult::Failed("trap: out of bounds memory access".to_string())
    );
}

#[test]
fn component_that_does_not_load_never_runs() {
    let (state, outcomes) = run(vec![
        SandboxEvent::LoadFailed("missing import".to_string()),
        SandboxEvent::Started,
        SandboxEvent::Returned(0),
    ]);
    assert_eq!(state, SandboxState::LoadFailed);
    assert_eq!(outcomes, vec![ExecutionOutcome::InstantiationError("missing import".to_string())]);
}

#[test]
fn event_out_of_place_changes_nothing() {
    assert_eq!(step(SandboxState::Loading, SandboxEvent::Started), (SandboxState::Loading, None));
    assert_eq!(
        step(SandboxState::Loading, SandboxEvent::Returned(1)),
        (SandboxState::Loading, None)
    );
    assert_eq!(
        step(SandboxState::Loading, SandboxEvent::DeadlineElapsed),
        (SandboxState::Loading, None)
    );
    assert_eq!(
        step(SandboxState::Instantiated, SandboxEvent::Linked),
        (SandboxState::Instantiated, None)
    );
    assert_eq!(
        step(SandboxState::Instantiated, SandboxEvent::LoadFailed("x".to_string())),
        (SandboxState::Instantiated, None)
    );
    assert_eq!(
        step(SandboxState::Instantiated, SandboxEvent::DeadlineElapsed),
        (SandboxState::Instantiated, None)
    );
    assert_eq!(step(SandboxState::Running, SandboxEvent::Started), (SandboxState::Running, None));
    assert_eq!(step(SandboxState::Running, SandboxEvent::Linked), (SandboxState::Running, None));
}

#[test]
fn transitions_are_those_of_the_table() {
    assert_eq!(
        step(SandboxState::Loading, SandboxEvent::Linked),
        (SandboxState::Instantiated, None)
    );
    assert_eq!(
        step(SandboxState::Loading, SandboxEvent::LoadFailed("m".to_string())),
        (SandboxState::LoadFailed, Some(ExecutionOutcome::InstantiationError("m".to_string())))
    );
    assert_eq!(
        step(SandboxState::Instantiated, SandboxEvent::Started),
        (SandboxState::Running, None)
    );
    assert_eq!(
        step(SandboxState::Running, SandboxEvent::Returned(-2)),
        (SandboxState::Completed, Some(ExecutionOutcome::NormalExit(-2)))
    );
    assert_eq!(
        step(SandboxState::Running, SandboxEvent::Trapped("t".to_string())),
        (SandboxState::Trapped, Some(ExecutionOutcome::Trap("t".to_string())))
    );
    assert_eq!(
        step(SandboxState::Running, SandboxEvent::DeadlineElapsed),
        (SandboxState::TimedOut, Some(ExecutionOutcome::TimedOut))
    );
}

#[test]
fn nothing_leaves_a_state_in_which_the_run_is_over() {
    for state in all_states() {
        for event in all_events() {
            let (next, outcome) = step(state, event);
            if state.is_terminal() {
                assert_eq!((next, outcome), (state, None));
            } else {
                assert_eq!(outcome.is_some(), next.is_terminal());
            }
        }
    }
    assert!(!SandboxState::Loading.is_terminal());
    assert!(!SandboxState::Instantiated.is_terminal());
    assert!(!SandboxState::Running.is_terminal());
    assert!(SandboxState::Completed.is_terminal());
    assert!(SandboxState::Trapped.is_terminal());
    assert!(SandboxState::TimedOut.is_terminal());
    assert!(SandboxState::LoadFailed.is_terminal());
}

#[test]
fn no_run_of_three_events_has_two_outcomes() {
    for a in all_events() {
        for b in all_events() {
            for c in all_events() {
                let (state, outcomes) = run(vec![a.clone(), b.clone(), c.clone()]);
                assert_eq!(outcomes.len(), usize::from(state.is_terminal()));
            }
        }
    }
}

#[test]
fn report_says_completed_or_failed_with_a_cause() {
    assert_eq!(report_of(ExecutionOutcome::NormalExit(0)), TaskResult::Completed(0));
    assert_eq!(report_of(ExecutionOutcome::NormalExit(-7)), TaskResult::Completed(-7));
    assert_eq!(
        report_of(ExecutionOutcome::Trap(String::new())),
        TaskResult::Failed("trap: ".to_string())
    );
    assert_eq!(
        report_of(ExecutionOutcome::InstantiationError("malformed binary".to_string())),
        TaskResult::Failed("load failed: malformed binary".to_string())
    );
    for outcome in [
        ExecutionOutcome::Trap(String::new()),
        ExecutionOutcome::TimedOut,
        ExecutionOutcome::InstantiationError(String::new()),
    ] {
        match report_of(outcome) {
            TaskResult::Failed(cause) => assert!(!cause.is_empty()),
            TaskResult::Completed(_) => panic!("a failure was reported as completed"),
        }
    }
}

#[test]
fn remaining_time_is_what_is_left_until_the_deadline() {
    assert_eq!(remaining_millis(1_000, 400), 600);
    assert_eq!(remaining_millis(1_000, 1_000), 0);
    assert_eq!(remaining_millis(1_000, 1_001), 0);
    assert_eq!(remaining_millis(-5, -10), 5);
    assert_eq!(remaining_millis(i64::MAX, i64::MIN), u64::MAX);
    assert_eq!(remaining_millis(i64::MIN, i64::MAX), 0);
    assert_eq!(remaining_millis(0, i64::MIN), 1u64 << 63);
}

#[test]
fn task_is_expired_once_the_deadline_has_come() {
    let task = Task {
        id: None,
        wasm_component: Vec::new(),
        wasm_component_args: Vec::new(),
        end_time: 5_000,
    };
    assert!(!task.is_expired(4_999));
    assert!(task.is_expired(5_000));
    assert!(task.is_expired(5_001));
}
