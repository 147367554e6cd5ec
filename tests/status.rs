use prover_cli::{BatchError, CLIErrors, Collaborator, Dispatch, Event, Request, StatusCommand};

fn run_with(cmd: StatusCommand<Vec<u32>>, ev: Event) -> Option<Result<(), CLIErrors>> {
    let (state, _request) = cmd.start();
    state.step(ev).into_outcome()
}

#[test]
fn batch_command_forwards_args_unchanged() {
    let args = vec![3u32, 5, 8];
    let (state, request) = StatusCommand::Batch(args.clone()).start();
    assert_eq!(request, Request::Batch(args));
    assert_eq!(state, Dispatch::Running(Collaborator::Batch));
}

#[test]
fn batch_command_forwards_empty_args() {
    let (_, request) = StatusCommand::Batch(Vec::<u32>::new()).start();
    assert_eq!(request, Request::Batch(Vec::new()));
}

#[test]
fn l1_command_calls_l1_query() {
    let (state, request) = StatusCommand::<Vec<u32>>::L1.start();
    assert_eq!(request, Request::L1);
    assert_eq!(state, Dispatch::Running(Collaborator::L1));
}

#[test]
fn l1_ok_gives_ok() {
    assert_eq!(run_with(StatusCommand::L1, Event::L1Done(Ok(()))), Some(Ok(())));
}

#[test]
fn l1_error_passed_through() {
    let err = CLIErrors::L1Query("connection refused".to_string());
    assert_eq!(
        run_with(StatusCommand::L1, Event::L1Done(Err(err.clone()))),
        Some(Err(err))
    );
}

#[test]
fn batch_ok_gives_ok() {
    assert_eq!(
        run_with(StatusCommand::Batch(vec![1]), Event::BatchDone(Ok(()))),
        Some(Ok(()))
    );
}

#[test]
fn nonexistent_batch_reports_not_found() {
    let out = run_with(
        StatusCommand::Batch(vec![999_999]),
        Event::BatchDone(Err(BatchError::NotFound(999_999))),
    );
    assert_eq!(out, Some(Err(CLIErrors::BatchNotFound(999_999))));
}

#[test]
fn batch_query_failure_keeps_its_message() {
    let out = run_with(
        StatusCommand::Batch(vec![4]),
        Event::BatchDone(Err(BatchError::Query("database unavailable".to_string()))),
    );
    assert_eq!(out, Some(Err(CLIErrors::BatchQuery("database unavailable".to_string()))));
}

#[test]
fn batch_error_conversion() {
    assert_eq!(CLIErrors::from(BatchError::NotFound(0)), CLIErrors::BatchNotFound(0));
    assert_eq!(CLIErrors::from(BatchError::NotFound(u32::MAX)), CLIErrors::BatchNotFound(u32::MAX));
    assert_eq!(
        CLIErrors::from(BatchError::Query("timeout".to_string())),
        CLIErrors::BatchQuery("timeout".to_string())
    );
    assert_ne!(
        CLIErrors::from(BatchError::NotFound(1)),
        CLIErrors::from(BatchError::NotFound(2))
    );
}

#[test]
fn answer_of_other_collaborator_is_ignored() {
    let (state, _) = StatusCommand::Batch(vec![2u32]).start();
    let state = state.step(Event::L1Done(Ok(())));
    assert_eq!(state, Dispatch::Running(Collaborator::Batch));
    let (state, _) = StatusCommand::<Vec<u32>>::L1.start();
    let state = state.step(Event::BatchDone(Ok(())));
    assert_eq!(state, Dispatch::Running(Collaborator::L1));
    assert_eq!(state.into_outcome(), None);
}

#[test]
fn completed_dispatch_is_final() {
    let (state, _) = StatusCommand::<Vec<u32>>::L1.start();
    let state = state.step(Event::L1Done(Ok(())));
    let again = state.step(Event::L1Done(Err(CLIErrors::L1Query("late".to_string()))));
    assert_eq!(again, Dispatch::Completed(Ok(())));
    assert_eq!(again.step(Event::Cancelled), Dispatch::Completed(Ok(())));
}

#[test]
fn two_l1_runs_are_independent() {
    let first = run_with(
        StatusCommand::L1,
        Event::L1Done(Err(CLIErrors::L1Query("unreachable node".to_string()))),
    );
    let second = run_with(StatusCommand::L1, Event::L1Done(Ok(())));
    assert_eq!(first, Some(Err(CLIErrors::L1Query("unreachable node".to_string()))));
    assert_eq!(second, Some(Ok(())));
}

#[test]
fn cancelled_l1_never_ok() {
    let (state, _) = StatusCommand::<Vec<u32>>::L1.start();
    let state = state.step(Event::Cancelled);
    assert_eq!(state, Dispatch::Cancelled);
    let state = state.step(Event::L1Done(Ok(())));
    assert_eq!(state, Dispatch::Cancelled);
    assert_eq!(state.into_outcome(), None);
}

#[test]
fn running_dispatch_has_no_outcome() {
    let (state, _) = StatusCommand::Batch(vec![9u32]).start();
    assert_eq!(state.into_outcome(), None);
}
